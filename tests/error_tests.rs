use oxitty::error::{OxittyError, SourceSpan};

#[test]
fn test_error_creation() {
    let err = OxittyError::terminal(
        "terminal init".to_string(),
        (0, 12),
        "failed to initialize terminal".to_string(),
    );

    match err {
        OxittyError::Terminal { src, err_span, msg } => {
            assert_eq!(src, "terminal init");
            assert_eq!(err_span, (0, 12).into());
            assert_eq!(msg, "failed to initialize terminal");
        }
        _ => panic!("Wrong error variant"),
    }
}

#[test]
fn every_variant_has_its_message() {
    let s = || "ctx".to_string();
    assert_eq!(OxittyError::terminal(s(), (0, 1), "a".to_string()).message(), "Terminal error: a");
    assert_eq!(OxittyError::io(s(), (0, 1), "b".to_string()).message(), "IO error: b");
    assert_eq!(
        OxittyError::init("/x.conf".to_string(), s(), (2, 3), "c".to_string()).message(),
        "Initialization error: c"
    );
    assert_eq!(OxittyError::event(s(), (0, 1), "d".to_string()).message(), "Event error: d");
    assert_eq!(OxittyError::channel_closed(s(), (20, 30)).message(), "Channel closed");
    assert_eq!(OxittyError::channel_full(s(), (0, 0)).message(), "Channel full");
}

#[test]
fn constructors_keep_their_fields() {
    match OxittyError::init("/cfg".to_string(), "init".to_string(), (5, 15), "m".to_string()) {
        OxittyError::InitError { path, src, err_span, msg } => {
            assert_eq!(path, "/cfg");
            assert_eq!(src, "init");
            assert_eq!(err_span, SourceSpan::new(5, 15));
            assert_eq!(msg, "m");
        }
        _ => panic!("Wrong error variant"),
    }
    match OxittyError::channel_closed("event channel".to_string(), (20, 30)) {
        OxittyError::ChannelClosed { err_span, .. } => {
            assert_eq!((err_span.offset, err_span.length), (20, 30));
        }
        _ => panic!("Wrong error variant"),
    }
}
