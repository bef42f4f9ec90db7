use backend::error::DecodeFailure;
use backend::intake::{replay, Intake, ACKNOWLEDGEMENT};
use backend::multipart::{decode, Demand, FieldDecoder, MultipartField, StreamItem};
use backend::submission::{assemble, classify, FieldRole, SubmissionRecord};

fn start(name: &str, filename: Option<&str>) -> StreamItem {
    StreamItem::FieldStart {
        name: Some(name.to_string()),
        filename: filename.map(|text| text.to_string()),
    }
}

fn nameless(filename: Option<&str>) -> StreamItem {
    StreamItem::FieldStart { name: None, filename: filename.map(|text| text.to_string()) }
}

fn chunk(bytes: &[u8]) -> StreamItem {
    StreamItem::Chunk(bytes.to_vec())
}

fn field(name: &str, filename: Option<&str>, content: &[u8]) -> MultipartField {
    MultipartField {
        name: name.to_string(),
        filename: filename.map(|text| text.to_string()),
        content: content.to_vec(),
    }
}

fn record(token_name: &str, image_filename: &str, image_bytes: &[u8]) -> SubmissionRecord {
    SubmissionRecord {
        token_name: token_name.to_string(),
        image_filename: image_filename.to_string(),
        image_bytes: image_bytes.to_vec(),
    }
}

fn finished(token_name: &str, image_filename: &str, image_bytes: &[u8]) -> Intake {
    Intake {
        decoder: FieldDecoder::Finished,
        record: record(token_name, image_filename, image_bytes),
    }
}

fn failed(failure: DecodeFailure) -> FieldDecoder {
    FieldDecoder::Failed { failure }
}

/// A body with the token's name and its image, the image in two chunks.
fn name_and_image() -> Vec<StreamItem> {
    vec![
        start("tokenName", None),
        chunk(b"MyToken"),
        StreamItem::FieldEnd,
        start("tokenImage", Some("a.png")),
        chunk(&[0x89, b'P', b'N', b'G']),
        chunk(&[0, 1, 2, 255]),
        StreamItem::FieldEnd,
        StreamItem::End,
    ]
}

#[test]
fn name_and_image_make_the_record() {
    let end = replay(name_and_image());
    assert_eq!(end, finished("MyToken", "a.png", &[0x89, b'P', b'N', b'G', 0, 1, 2, 255]));
    assert_eq!(
        end.outcome(),
        Some(Ok(record("MyToken", "a.png", &[0x89, b'P', b'N', b'G', 0, 1, 2, 255])))
    );
}

#[test]
fn assembler_folds_name_and_image() {
    let fields = vec![
        field("tokenName", None, b"MyToken"),
        field("tokenImage", Some("a.png"), &[1, 2, 3]),
    ];
    assert_eq!(assemble(fields), record("MyToken", "a.png", &[1, 2, 3]));
}

#[test]
fn decoder_yields_the_fields_in_their_order() {
    let (fields, end) = decode(name_and_image());
    assert_eq!(
        fields,
        vec![
            field("tokenName", None, b"MyToken"),
            field("tokenImage", Some("a.png"), &[0x89, b'P', b'N', b'G', 0, 1, 2, 255]),
        ]
    );
    assert_eq!(end, FieldDecoder::Finished);
}

#[test]
fn intake_is_decoding_then_assembling() {
    let (fields, end) = decode(name_and_image());
    let intake = replay(name_and_image());
    assert_eq!(intake.decoder, end);
    assert_eq!(intake.record, assemble(fields));
}

#[test]
fn nameless_field_is_skipped_and_reading_goes_on() {
    let items = || {
        vec![
            nameless(Some("stray.bin")),
            chunk(b"noise"),
            chunk(b"more noise"),
            StreamItem::FieldEnd,
            start("tokenName", None),
            chunk(b"MyToken"),
            StreamItem::FieldEnd,
            nameless(None),
            StreamItem::FieldEnd,
            start("tokenImage", Some("a.png")),
            StreamItem::FieldEnd,
            StreamItem::End,
        ]
    };
    assert_eq!(replay(items()), finished("MyToken", "a.png", &[]));
    let (fields, end) = decode(items());
    assert_eq!(
        fields,
        vec![field("tokenName", None, b"MyToken"), field("tokenImage", Some("a.png"), &[])]
    );
    assert_eq!(end, FieldDecoder::Finished);
}

#[test]
fn empty_body_makes_an_empty_record() {
    assert_eq!(replay(vec![StreamItem::End]), finished("", "", &[]));
    assert_eq!(replay(vec![StreamItem::End]).outcome(), Some(Ok(record("", "", &[]))));
    assert_eq!(decode(vec![StreamItem::End]), (Vec::new(), FieldDecoder::Finished));
    assert_eq!(assemble(Vec::new()), SubmissionRecord::new());
    assert_eq!(SubmissionRecord::new(), record("", "", &[]));
}

#[test]
fn replay_of_the_same_stream_ends_alike() {
    assert_eq!(replay(name_and_image()), replay(name_and_image()));
    assert_eq!(decode(name_and_image()), decode(name_and_image()));
}

#[test]
fn chunk_boundaries_do_not_matter() {
    let whole =
        vec![start("tokenName", None), chunk(b"MyToken"), StreamItem::FieldEnd, StreamItem::End];
    let split = vec![
        start("tokenName", None),
        chunk(b"My"),
        chunk(b""),
        chunk(b"Tok"),
        chunk(b"en"),
        StreamItem::FieldEnd,
        StreamItem::End,
    ];
    assert_eq!(replay(whole), replay(split));
}

#[test]
fn name_split_inside_a_character_is_put_together() {
    let bytes = "café".as_bytes();
    let items = vec![
        start("tokenName", None),
        chunk(&bytes[..4]),
        chunk(&bytes[4..]),
        StreamItem::FieldEnd,
        StreamItem::End,
    ];
    assert_eq!(replay(items), finished("café", "", &[]));
}

#[test]
fn name_that_is_no_text_leaves_the_earlier_name() {
    let items = vec![
        start("tokenName", None),
        chunk(b"Kept"),
        StreamItem::FieldEnd,
        start("tokenName", None),
        chunk(&[0xff, 0xfe, 0xfd]),
        StreamItem::FieldEnd,
        StreamItem::End,
    ];
    assert_eq!(replay(items), finished("Kept", "", &[]));
}

#[test]
fn name_that_is_no_text_alone_leaves_the_name_empty() {
    for bytes in [
        &[0x80u8][..],
        &[0xc0, 0xaf],
        &[0xed, 0xa0, 0x80],
        &[0xf4, 0x90, 0x80, 0x80],
        &[b'a', 0xe2, 0x82],
    ] {
        let fields = vec![field("tokenName", None, bytes)];
        assert_eq!(assemble(fields), record("", "", &[]));
    }
}

#[test]
fn name_in_any_script_is_taken() {
    for name in ["", "a", "Ünïcödé", "日本語トークン", "🚀", "\u{10ffff}"] {
        let fields = vec![field("tokenName", None, name.as_bytes())];
        assert_eq!(assemble(fields), record(name, "", &[]));
    }
}

#[test]
fn later_fields_replace_earlier_ones() {
    let fields = vec![
        field("tokenName", None, b"First"),
        field("tokenImage", Some("one.png"), &[1]),
        field("tokenName", None, b"Second"),
        field("tokenImage", Some("two.png"), &[2, 2]),
    ];
    assert_eq!(assemble(fields), record("Second", "two.png", &[2, 2]));
}

#[test]
fn image_without_file_name_keeps_the_earlier_file_name() {
    let fields =
        vec![field("tokenImage", Some("one.png"), &[1]), field("tokenImage", None, &[9, 9])];
    assert_eq!(assemble(fields), record("", "one.png", &[9, 9]));
}

#[test]
fn file_name_of_a_name_field_is_not_recorded() {
    let fields = vec![field("tokenName", Some("name.txt"), b"MyToken")];
    assert_eq!(assemble(fields), record("MyToken", "", &[]));
}

#[test]
fn unknown_fields_change_nothing() {
    let fields = vec![
        field("tokenName", None, b"MyToken"),
        field("description", None, b"ignored"),
        field("tokenimage", Some("wrong-case.png"), &[7]),
        field("", Some("empty-name.png"), &[8]),
    ];
    assert_eq!(assemble(fields), record("MyToken", "", &[]));
}

#[test]
fn roles_go_by_the_exact_name() {
    assert_eq!(classify(&"tokenImage".to_string()), FieldRole::TokenImage);
    assert_eq!(classify(&"tokenName".to_string()), FieldRole::TokenName);
    for name in ["", "tokenname", "TokenName", "tokenImage ", "token", "tokenNameX"] {
        assert_eq!(classify(&name.to_string()), FieldRole::Unknown);
    }
}

#[test]
fn absorb_takes_one_field_at_a_time() {
    let mut so_far = SubmissionRecord::new();
    so_far.absorb(field("tokenImage", Some("a.png"), &[4, 5]));
    assert_eq!(so_far, record("", "a.png", &[4, 5]));
    so_far.absorb(field("tokenName", None, b"MyToken"));
    assert_eq!(so_far, record("MyToken", "a.png", &[4, 5]));
    so_far.absorb(field("other", Some("b.png"), b"x"));
    assert_eq!(so_far, record("MyToken", "a.png", &[4, 5]));
}

#[test]
fn field_is_filled_chunk_by_chunk() {
    let mut open = MultipartField::open("tokenImage".to_string(), Some("a.png".to_string()));
    assert_eq!(open, field("tokenImage", Some("a.png"), &[]));
    open.extend(vec![1, 2]);
    open.extend(Vec::new());
    open.extend(vec![3]);
    assert_eq!(open, field("tokenImage", Some("a.png"), &[1, 2, 3]));
}

#[test]
fn decoder_steps_through_a_field() {
    let decoder = FieldDecoder::new();
    assert_eq!(decoder, FieldDecoder::AwaitingField);
    let (decoder, completed) = decoder.accept(start("tokenName", Some("n.txt")));
    assert_eq!(decoder, FieldDecoder::InField { field: field("tokenName", Some("n.txt"), &[]) });
    assert_eq!(completed, None);
    let (decoder, completed) = decoder.accept(chunk(b"My"));
    assert_eq!(completed, None);
    let (decoder, completed) = decoder.accept(chunk(b"Token"));
    assert_eq!(
        decoder,
        FieldDecoder::InField { field: field("tokenName", Some("n.txt"), b"MyToken") }
    );
    assert_eq!(completed, None);
    let (decoder, completed) = decoder.accept(StreamItem::FieldEnd);
    assert_eq!(decoder, FieldDecoder::AwaitingField);
    assert_eq!(completed, Some(field("tokenName", Some("n.txt"), b"MyToken")));
    let (decoder, completed) = decoder.accept(nameless(None));
    assert_eq!((&decoder, &completed), (&FieldDecoder::Skipping, &None));
    let (decoder, completed) = decoder.accept(chunk(b"dropped"));
    assert_eq!((&decoder, &completed), (&FieldDecoder::Skipping, &None));
    let (decoder, completed) = decoder.accept(StreamItem::FieldEnd);
    assert_eq!((&decoder, &completed), (&FieldDecoder::AwaitingField, &None));
    let (decoder, completed) = decoder.accept(StreamItem::End);
    assert_eq!((&decoder, &completed), (&FieldDecoder::Finished, &None));
}

#[test]
fn intake_steps_through_a_field() {
    let intake = Intake::new();
    assert_eq!(
        intake,
        Intake { decoder: FieldDecoder::AwaitingField, record: record("", "", &[]) }
    );
    let intake = intake.accept(start("tokenName", None));
    let intake = intake.accept(chunk(b"My"));
    let intake = intake.accept(chunk(b"Token"));
    assert_eq!(
        intake,
        Intake {
            decoder: FieldDecoder::InField { field: field("tokenName", None, b"MyToken") },
            record: record("", "", &[]),
        }
    );
    let intake = intake.accept(StreamItem::FieldEnd);
    assert_eq!(
        intake,
        Intake { decoder: FieldDecoder::AwaitingField, record: record("MyToken", "", &[]) }
    );
    let intake = intake.accept(StreamItem::End);
    assert_eq!(intake, finished("MyToken", "", &[]));
}

#[test]
fn chunk_error_gives_the_reading_up() {
    let in_field = vec![start("tokenName", None), chunk(b"My"), StreamItem::ChunkError];
    assert_eq!(replay(in_field).outcome(), Some(Err(DecodeFailure::ChunkRead)));
    let skipping = vec![nameless(None), StreamItem::ChunkError];
    assert_eq!(replay(skipping).outcome(), Some(Err(DecodeFailure::ChunkRead)));
}

#[test]
fn field_error_gives_the_reading_up() {
    let at_once = vec![StreamItem::FieldError];
    assert_eq!(replay(at_once).outcome(), Some(Err(DecodeFailure::MalformedField)));
    let after_a_field = vec![
        start("tokenName", None),
        chunk(b"MyToken"),
        StreamItem::FieldEnd,
        StreamItem::FieldError,
    ];
    assert_eq!(replay(after_a_field).outcome(), Some(Err(DecodeFailure::MalformedField)));
}

#[test]
fn fields_before_a_failure_stand_and_none_follows() {
    let mut items = vec![
        start("tokenName", None),
        chunk(b"MyToken"),
        StreamItem::FieldEnd,
        start("tokenImage", Some("a.png")),
        chunk(&[1, 2]),
        StreamItem::ChunkError,
    ];
    items.extend(name_and_image());
    let (fields, end) = decode(items);
    assert_eq!(fields, vec![field("tokenName", None, b"MyToken")]);
    assert_eq!(end, failed(DecodeFailure::ChunkRead));
}

#[test]
fn nothing_is_read_after_a_failure() {
    let mut items = vec![start("tokenName", None), StreamItem::ChunkError];
    items.extend(name_and_image());
    let end = replay(items);
    assert_eq!(end, Intake { decoder: failed(DecodeFailure::ChunkRead), record: record("", "", &[]) });
    assert_eq!(end.outcome(), Some(Err(DecodeFailure::ChunkRead)));
}

#[test]
fn nothing_is_read_after_the_end() {
    let mut items = name_and_image();
    items.push(start("tokenName", None));
    items.push(chunk(b"Late"));
    items.push(StreamItem::FieldEnd);
    items.push(StreamItem::FieldError);
    assert_eq!(replay(items), replay(name_and_image()));
}

#[test]
fn items_out_of_place_are_a_malformed_body() {
    let malformed = Some(Err(DecodeFailure::MalformedField));
    assert_eq!(replay(vec![chunk(b"x")]).outcome(), malformed);
    assert_eq!(replay(vec![StreamItem::FieldEnd]).outcome(), malformed);
    assert_eq!(
        replay(vec![start("tokenName", None), start("tokenImage", None)]).outcome(),
        malformed
    );
    assert_eq!(replay(vec![start("tokenName", None), StreamItem::End]).outcome(), malformed);
    assert_eq!(replay(vec![start("tokenName", None), StreamItem::FieldError]).outcome(), malformed);
    assert_eq!(replay(vec![nameless(None), StreamItem::End]).outcome(), malformed);
    assert_eq!(replay(vec![nameless(None), nameless(None)]).outcome(), malformed);
}

#[test]
fn unfinished_stream_has_no_outcome() {
    assert_eq!(replay(Vec::new()), Intake::new());
    assert_eq!(replay(Vec::new()).outcome(), None);
    let open = replay(vec![start("tokenImage", Some("a.png")), chunk(&[1])]);
    assert_eq!(
        open,
        Intake {
            decoder: FieldDecoder::InField { field: field("tokenImage", Some("a.png"), &[1]) },
            record: record("", "", &[]),
        }
    );
    assert_eq!(open.outcome(), None);
    assert_eq!(replay(vec![nameless(None)]).outcome(), None);
}

#[test]
fn acknowledgement_is_fixed() {
    assert_eq!(ACKNOWLEDGEMENT, "Received data successfully. On-chain creation coming soon!");
}

#[test]
fn decoder_asks_for_what_its_state_needs() {
    assert_eq!(FieldDecoder::AwaitingField.wants(), Demand::Field);
    assert_eq!(
        FieldDecoder::InField { field: field("tokenName", None, b"My") }.wants(),
        Demand::Chunk
    );
    assert_eq!(FieldDecoder::Skipping.wants(), Demand::Chunk);
    assert_eq!(FieldDecoder::Finished.wants(), Demand::Nothing);
    assert_eq!(failed(DecodeFailure::ChunkRead).wants(), Demand::Nothing);
    assert_eq!(failed(DecodeFailure::MalformedField).wants(), Demand::Nothing);
}

#[test]
fn intake_asks_until_it_has_an_outcome() {
    let mut intake = Intake::new();
    let mut asked = Vec::new();
    for item in name_and_image() {
        asked.push(intake.wants());
        intake = intake.accept(item);
    }
    assert_eq!(
        asked,
        vec![
            Demand::Field,
            Demand::Chunk,
            Demand::Chunk,
            Demand::Field,
            Demand::Chunk,
            Demand::Chunk,
            Demand::Chunk,
            Demand::Field,
        ]
    );
    assert_eq!(intake.wants(), Demand::Nothing);
    assert!(intake.outcome().is_some());
    assert_eq!(replay(vec![nameless(None)]).wants(), Demand::Chunk);
    assert_eq!(replay(vec![StreamItem::FieldError]).wants(), Demand::Nothing);
}

#[test]
fn stream_that_fails_at_once_is_answered_in_words() {
    let end = replay(vec![StreamItem::FieldError]);
    let failure = end.outcome().unwrap().unwrap_err();
    assert_eq!(failure, DecodeFailure::MalformedField);
    assert_eq!(failure.http_status(), 500);
    assert_eq!(failure.message(), "Error reading multipart field");
}
