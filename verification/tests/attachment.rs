use matrix_notify::attachment::{content_type, file_name, name_to_send, LastComponent};
use matrix_notify::error::Error;

#[test]
fn the_media_type_follows_the_extension() {
    assert_eq!(content_type("plot.png"), "image/png");
    assert_eq!(content_type("/tmp/run/clip.mp4"), "video/mp4");
    assert_eq!(content_type("notes.txt"), "text/plain");
    assert_eq!(content_type("report.pdf"), "application/pdf");
}

#[test]
fn the_media_type_ignores_the_case_of_the_extension() {
    assert_eq!(content_type("PLOT.PNG"), "image/png");
}

#[test]
fn an_unknown_extension_is_a_stream_of_octets() {
    assert_eq!(content_type("data.no-such-extension"), "application/octet-stream");
    assert_eq!(content_type("Makefile"), "application/octet-stream");
    assert_eq!(content_type(""), "application/octet-stream");
}

#[test]
fn the_sent_name_is_the_last_component() {
    assert_eq!(file_name("plot.png").expect("a name"), "plot.png");
    assert_eq!(file_name("/tmp/run/clip.mp4").expect("a name"), "clip.mp4");
    assert_eq!(file_name("results/").expect("a name"), "results");
    assert_eq!(file_name("./notes.txt").expect("a name"), "notes.txt");
}

#[test]
fn a_path_without_last_component_names_no_file() {
    assert!(matches!(file_name(".."), Err(Error::MissingFilename)));
    assert!(matches!(file_name("a/.."), Err(Error::MissingFilename)));
    assert!(matches!(file_name("/"), Err(Error::MissingFilename)));
    assert!(matches!(file_name(""), Err(Error::MissingFilename)));
}

#[test]
fn an_unreadable_name_is_sent_as_file() {
    assert_eq!(name_to_send(LastComponent::Unreadable).expect("a name"), "file");
}

#[test]
fn a_readable_name_is_sent_as_it_is() {
    assert_eq!(name_to_send(LastComponent::Named("a b.txt".to_string())).expect("a name"), "a b.txt");
    assert!(matches!(name_to_send(LastComponent::Missing), Err(Error::MissingFilename)));
}
