use thumbcache::extract::extractor_args;

#[test]
fn invocation_arguments_are_fixed() {
    let args = extractor_args("/v/movie.mp4", "/cache/movie.png");
    assert_eq!(
        args,
        vec![
            "-i".to_string(),
            "/v/movie.mp4".to_string(),
            "-ss".to_string(),
            "00:00:01.000".to_string(),
            "-vframes".to_string(),
            "1".to_string(),
            "-s".to_string(),
            "222x124".to_string(),
            "/cache/movie.png".to_string(),
        ]
    );
}
