use libxcp::errors::XcpError;
use libxcp::options::{Opts, Reflink};

#[test]
fn reflink_parses_the_three_modes() {
    assert_eq!(Reflink::from_str("always").unwrap(), Reflink::Always);
    assert_eq!(Reflink::from_str("auto").unwrap(), Reflink::Auto);
    assert_eq!(Reflink::from_str("never").unwrap(), Reflink::Never);
}

#[test]
fn reflink_parsing_is_case_insensitive() {
    assert_eq!(Reflink::from_str("Always").unwrap(), Reflink::Always);
    assert_eq!(Reflink::from_str("AUTO").unwrap(), Reflink::Auto);
    assert_eq!(Reflink::from_str("NeVeR").unwrap(), Reflink::Never);
}

#[test]
fn reflink_rejects_unknown_text() {
    let r = Reflink::from_str("sometimes");
    match r {
        Err(XcpError::InvalidArguments(text)) => assert_eq!(text, "sometimes"),
        other => panic!("expected an invalid-arguments error, got {:?}", other),
    }
    assert!(Reflink::from_str("").is_err());
}

#[test]
fn opts_validates_at_construction() {
    let o = Opts::new("auto", 1024, 4096, true, false, true, false).unwrap();
    assert_eq!(o.reflink, Reflink::Auto);
    assert_eq!(o.block_size, 1024);
    assert_eq!(o.batch_size, 4096);
    assert!(o.no_perms);
    assert!(!o.fsync);
    assert!(o.no_clobber);
    assert!(!o.no_target_directory);

    assert!(matches!(
        Opts::new("bogus", 1024, 4096, false, false, false, false),
        Err(XcpError::InvalidArguments(_))
    ));
    assert!(matches!(
        Opts::new("auto", 0, 4096, false, false, false, false),
        Err(XcpError::InvalidArguments(_))
    ));
    assert!(matches!(
        Opts::new("auto", 1024, 0, false, false, false, false),
        Err(XcpError::InvalidArguments(_))
    ));
}
