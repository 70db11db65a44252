use pasteboard::write_outcome;
use pasteboard::Content;
use pasteboard::Error;
use pasteboard::PasteBoard;
use pasteboard::SystemClipboard;
use pasteboard::Type;

#[test]
fn pasteboard() {
    let ori = "Hello world".to_string();
    let content = Content::Text(ori.clone());

    let mut clipboard = SystemClipboard::new();
    let mut board = PasteBoard::new();
    board
        .write_contents(&mut clipboard, content.clone(), Type::PlainText)
        .unwrap();

    let types = board.types(&clipboard).unwrap();
    assert!(types.contains(&Type::PlainText));
    let res = board
        .get_contents(&clipboard, Type::PlainText, true)
        .unwrap();
    if let Content::Text(val) = res {
        assert_eq!(val, ori);
    } else {
        panic!("Get incorrect value.");
    }

    let ori = b"Hello world".to_vec();
    let content = Content::Data(ori.clone());
    board
        .write_contents(&mut clipboard, content, Type::DocumentFixedLayout)
        .unwrap();

    let types = board.types(&clipboard).unwrap();
    assert!(types.contains(&Type::DocumentFixedLayout));
    let res = board
        .get_contents(&clipboard, Type::DocumentFixedLayout, true)
        .unwrap();
    if let Content::Data(val) = res {
        assert_eq!(val, ori);
    } else {
        panic!("Get incorrect value.");
    }
}

#[test]
fn text_round_trip_all_textual_types() {
    for ty in [
        Type::Markup,
        Type::RichText,
        Type::TabularText,
        Type::PlainText,
        Type::FileReference,
    ] {
        let mut clipboard = SystemClipboard::new();
        let mut board = PasteBoard::new();
        let text = "line one\nline two \u{00e9}\u{4e16}".to_string();
        board
            .write_contents(&mut clipboard, Content::Text(text.clone()), ty)
            .unwrap();
        match board.get_contents(&clipboard, ty, false).unwrap() {
            Content::Text(val) => assert_eq!(val, text),
            Content::Data(_) => panic!("expected text"),
        }
    }
}

#[test]
fn data_round_trip_all_binary_types() {
    for ty in [
        Type::ImageLossless,
        Type::ImageCompressed,
        Type::DocumentFixedLayout,
    ] {
        let mut clipboard = SystemClipboard::new();
        let mut board = PasteBoard::new();
        let bytes = vec![0u8, 255, 3, 128, 7];
        board
            .write_contents(&mut clipboard, Content::Data(bytes.clone()), ty)
            .unwrap();
        match board.get_contents(&clipboard, ty, false).unwrap() {
            Content::Data(val) => assert_eq!(val, bytes),
            Content::Text(_) => panic!("expected data"),
        }
    }
}

#[test]
fn empty_payloads_round_trip() {
    let mut clipboard = SystemClipboard::new();
    let mut board = PasteBoard::new();
    board
        .write_contents(&mut clipboard, Content::Text(String::new()), Type::PlainText)
        .unwrap();
    match board.get_contents(&clipboard, Type::PlainText, false).unwrap() {
        Content::Text(val) => assert_eq!(val, ""),
        Content::Data(_) => panic!("expected text"),
    }
    board
        .write_contents(&mut clipboard, Content::Data(Vec::new()), Type::ImageLossless)
        .unwrap();
    match board
        .get_contents(&clipboard, Type::ImageLossless, false)
        .unwrap()
    {
        Content::Data(val) => assert!(val.is_empty()),
        Content::Text(_) => panic!("expected data"),
    }
}

#[test]
fn newer_only_read_seen_once_per_write() {
    let mut clipboard = SystemClipboard::new();
    let mut board = PasteBoard::new();
    board
        .write_contents(&mut clipboard, Content::Text("tick".to_string()), Type::PlainText)
        .unwrap();

    let first = board.get_contents(&clipboard, Type::PlainText, true);
    assert!(first.is_ok());
    let second = board.get_contents(&clipboard, Type::PlainText, true);
    assert_eq!(second.unwrap_err(), Error::NoNewerContent);

    board
        .write_contents(&mut clipboard, Content::Text("tock".to_string()), Type::PlainText)
        .unwrap();
    let third = board.get_contents(&clipboard, Type::PlainText, true);
    assert!(third.is_ok());
}

#[test]
fn failed_fetch_still_advances_watermark() {
    let mut clipboard = SystemClipboard::new();
    let mut board = PasteBoard::new();
    board
        .write_contents(&mut clipboard, Content::Text("here".to_string()), Type::PlainText)
        .unwrap();

    let miss = board.get_contents(&clipboard, Type::Markup, true);
    assert_eq!(miss.unwrap_err(), Error::NoDataForType);
    let after = board.get_contents(&clipboard, Type::PlainText, true);
    assert_eq!(after.unwrap_err(), Error::NoNewerContent);
}

#[test]
fn write_clears_previous_contents() {
    let mut clipboard = SystemClipboard::new();
    let mut board = PasteBoard::new();
    board
        .write_contents(&mut clipboard, Content::Text("old".to_string()), Type::PlainText)
        .unwrap();
    board
        .write_contents(
            &mut clipboard,
            Content::Data(vec![1, 2, 3]),
            Type::DocumentFixedLayout,
        )
        .unwrap();

    let types = board.types(&clipboard).unwrap();
    assert_eq!(types, vec![Type::DocumentFixedLayout]);
    let gone = board.get_contents(&clipboard, Type::PlainText, false);
    assert_eq!(gone.unwrap_err(), Error::NoDataForType);
}

#[test]
fn unmapped_identifiers_never_enumerate() {
    let mut clipboard = SystemClipboard::new();
    let mut board = PasteBoard::new();
    board
        .write_contents(&mut clipboard, Content::Text("kept".to_string()), Type::PlainText)
        .unwrap();
    assert!(clipboard.set_string("com.example.mystery", "opaque".to_string()));
    assert!(clipboard.set_data("com.example.blob", vec![9, 9]));

    let types = board.types(&clipboard).unwrap();
    assert_eq!(types, vec![Type::PlainText]);
    assert!(!types.contains(&Type::Other));
}

#[test]
fn get_other_is_unsupported() {
    let mut clipboard = SystemClipboard::new();
    let mut board = PasteBoard::new();
    let empty = board.get_contents(&clipboard, Type::Other, false);
    assert_eq!(empty.unwrap_err(), Error::UnsupportedType);

    board
        .write_contents(&mut clipboard, Content::Text("full".to_string()), Type::PlainText)
        .unwrap();
    let full = board.get_contents(&clipboard, Type::Other, false);
    assert_eq!(full.unwrap_err(), Error::UnsupportedType);
}

#[test]
fn write_other_is_unsupported() {
    let mut clipboard = SystemClipboard::new();
    let board = PasteBoard::new();
    let r = board.write_contents(&mut clipboard, Content::Text("x".to_string()), Type::Other);
    assert_eq!(r.unwrap_err(), Error::UnsupportedType);
    let r = board.write_contents(&mut clipboard, Content::Data(vec![1]), Type::Other);
    assert_eq!(r.unwrap_err(), Error::UnsupportedType);
    assert!(board.types(&clipboard).unwrap().is_empty());
}

#[test]
fn mismatched_payload_shape_is_rejected() {
    let mut clipboard = SystemClipboard::new();
    let board = PasteBoard::new();
    let r = board.write_contents(&mut clipboard, Content::Data(vec![1]), Type::PlainText);
    assert_eq!(r.unwrap_err(), Error::TypeContentMismatch);
    let r = board.write_contents(
        &mut clipboard,
        Content::Text("not bytes".to_string()),
        Type::ImageLossless,
    );
    assert_eq!(r.unwrap_err(), Error::TypeContentMismatch);
    assert!(board.types(&clipboard).unwrap().is_empty());
}

#[test]
fn wrong_shape_on_clipboard_reads_as_no_data() {
    let mut clipboard = SystemClipboard::new();
    let mut board = PasteBoard::new();
    assert!(clipboard.set_data("public.utf8-plain-text", vec![1, 2]));
    let r = board.get_contents(&clipboard, Type::PlainText, false);
    assert_eq!(r.unwrap_err(), Error::NoDataForType);
}

#[test]
fn refused_set_reports_write_rejected() {
    assert_eq!(write_outcome(true), Ok(()));
    assert_eq!(write_outcome(false), Err(Error::WriteRejected));
}

#[test]
fn write_advances_change_counter() {
    let mut clipboard = SystemClipboard::new();
    let board = PasteBoard::new();
    assert_eq!(clipboard.change_count(), 0);
    board
        .write_contents(&mut clipboard, Content::Text("a".to_string()), Type::PlainText)
        .unwrap();
    assert_eq!(clipboard.change_count(), 1);
    board
        .write_contents(&mut clipboard, Content::Text("b".to_string()), Type::RichText)
        .unwrap();
    assert_eq!(clipboard.change_count(), 2);
}

#[test]
fn scenario_text_then_document() {
    let mut clipboard = SystemClipboard::new();
    let mut board = PasteBoard::new();

    board
        .write_contents(
            &mut clipboard,
            Content::Text("Hello world".to_string()),
            Type::PlainText,
        )
        .unwrap();
    assert!(board.types(&clipboard).unwrap().contains(&Type::PlainText));
    match board.get_contents(&clipboard, Type::PlainText, true).unwrap() {
        Content::Text(val) => assert_eq!(val, "Hello world"),
        Content::Data(_) => panic!("expected text"),
    }

    board
        .write_contents(
            &mut clipboard,
            Content::Data(b"Hello world".to_vec()),
            Type::DocumentFixedLayout,
        )
        .unwrap();
    let types = board.types(&clipboard).unwrap();
    assert!(types.contains(&Type::DocumentFixedLayout));
    assert!(!types.contains(&Type::PlainText));
    match board
        .get_contents(&clipboard, Type::DocumentFixedLayout, true)
        .unwrap()
    {
        Content::Data(val) => assert_eq!(val, b"Hello world".to_vec()),
        Content::Text(_) => panic!("expected data"),
    }
}
