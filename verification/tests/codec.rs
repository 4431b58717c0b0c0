use motrix::bencode::{encode_bencode, parse_bencode, Bencode};
use motrix::error::Error;
use motrix::torrent::torrent_info_of;

fn parse(bytes: &[u8]) -> Option<Bencode> {
    parse_bencode(&bytes.to_vec())
}

#[test]
fn bencode_round_trip_on_a_document() {
    let data = b"d7:comment5:hello4:infod6:lengthi42e4:name3:fooee".to_vec();
    let value = parse_bencode(&data).expect("well-formed bencode");
    assert_eq!(encode_bencode(&value), data);
}

#[test]
fn bencode_parses_each_shape() {
    assert!(matches!(parse(b"i42e"), Some(Bencode::Int(42))));
    assert!(matches!(parse(b"i-7e"), Some(Bencode::Int(-7))));
    assert!(matches!(parse(b"i0e"), Some(Bencode::Int(0))));
    match parse(b"4:spam") {
        Some(Bencode::Bytes(b)) => assert_eq!(b, b"spam".to_vec()),
        _ => panic!("a byte string"),
    }
    match parse(b"l4:spami3ee") {
        Some(Bencode::List(items)) => assert_eq!(items.len(), 2),
        _ => panic!("a list"),
    }
    match parse(b"d3:bar4:spam3:fooi3ee") {
        Some(Bencode::Dict(fields)) => {
            assert_eq!(fields.len(), 2);
            assert_eq!(fields[0].0, b"bar".to_vec());
        }
        _ => panic!("a dictionary"),
    }
}

#[test]
fn bencode_handles_empty_containers() {
    let empty_list = parse(b"le").expect("an empty list parses");
    assert_eq!(encode_bencode(&empty_list), b"le".to_vec());
    let empty_dict = parse(b"de").expect("an empty dictionary parses");
    assert_eq!(encode_bencode(&empty_dict), b"de".to_vec());
    match parse(b"0:") {
        Some(Bencode::Bytes(b)) => assert!(b.is_empty()),
        _ => panic!("the empty byte string parses"),
    }
}

#[test]
fn bencode_rejects_malformed_input() {
    assert!(parse(b"").is_none());
    assert!(parse(b"i42").is_none());
    assert!(parse(b"i042e").is_none(), "leading zeros are not canonical");
    assert!(parse(b"i-0e").is_none(), "negative zero is not canonical");
    assert!(parse(b"01:a").is_none(), "length with a leading zero");
    assert!(parse(b"5:spam").is_none(), "length past the end");
    assert!(parse(b"l4:spam").is_none(), "unterminated list");
    assert!(parse(b"i3ei4e").is_none(), "trailing bytes");
    assert!(parse(b"dii1e4:spame").is_none(), "a dictionary key must be bytes");
}

#[test]
fn bencode_encoding_is_canonical() {
    let v = Bencode::List(vec![
        Bencode::Int(-12),
        Bencode::Bytes(b"ab".to_vec()),
        Bencode::Dict(vec![(b"k".to_vec(), Bencode::Int(0))]),
    ]);
    let encoded = encode_bencode(&v);
    assert_eq!(encoded, b"li-12e2:abd1:ki0eee".to_vec());
    // and the parser accepts exactly that form back
    let reparsed = parse_bencode(&encoded).expect("canonical form parses");
    assert_eq!(encode_bencode(&reparsed), encoded);
}

#[test]
fn single_file_torrent_lists_itself() {
    let data = b"d7:comment2:hi4:infod6:lengthi42e4:name3:fooee".to_vec();
    let doc = parse_bencode(&data).expect("well-formed bencode");
    let info = torrent_info_of(&doc).expect("well-formed torrent");
    assert_eq!(info.name, "foo");
    assert_eq!(info.comment, "hi");
    assert_eq!(info.files.len(), 1);
    assert_eq!(info.files[0].index, 0);
    assert_eq!(info.files[0].path, "foo");
    assert_eq!(info.files[0].length, 42);
}

#[test]
fn multi_file_torrent_lists_each_file_with_its_position() {
    let data =
        b"d4:infod5:filesld6:lengthi10e4:pathl1:a1:beed6:lengthi20e4:pathl1:ceee4:name3:fooee"
            .to_vec();
    let doc = parse_bencode(&data).expect("well-formed bencode");
    let info = torrent_info_of(&doc).expect("well-formed torrent");
    assert_eq!(info.name, "foo");
    assert_eq!(info.comment, "");
    assert_eq!(info.files.len(), 2);
    assert_eq!(info.files[0].index, 0);
    assert_eq!(info.files[0].path, "a/b");
    assert_eq!(info.files[0].length, 10);
    assert_eq!(info.files[1].index, 1);
    assert_eq!(info.files[1].path, "c");
    assert_eq!(info.files[1].length, 20);
}

#[test]
fn non_dictionary_entries_keep_their_neighbours_positions() {
    // the second list element is not a dictionary: it yields no entry, and
    // the third keeps its position of two
    let data = b"d4:infod5:filesld6:lengthi1e4:pathl1:aeei9ed6:lengthi2e4:pathl1:beee4:name1:nee"
        .to_vec();
    let doc = parse_bencode(&data).expect("well-formed bencode");
    let info = torrent_info_of(&doc).expect("well-formed torrent");
    assert_eq!(info.files.len(), 2);
    assert_eq!(info.files[0].index, 0);
    assert_eq!(info.files[1].index, 2);
    assert_eq!(info.files[1].path, "b");
}

#[test]
fn torrent_rejections_name_their_cause() {
    let not_dict = parse(b"3:foo").expect("a byte string parses");
    assert_eq!(
        torrent_info_of(&not_dict).unwrap_err(),
        Error::Custom("Invalid torrent format".to_string())
    );
    let no_info = parse(b"d7:comment2:hie").expect("a dictionary parses");
    assert_eq!(
        torrent_info_of(&no_info).unwrap_err(),
        Error::Custom("Missing info dictionary".to_string())
    );
    let bad_info = parse(b"d4:infoi3ee").expect("a dictionary parses");
    assert_eq!(
        torrent_info_of(&bad_info).unwrap_err(),
        Error::Custom("Invalid info dictionary".to_string())
    );
}

#[test]
fn missing_fields_fall_back_to_defaults() {
    // no name, no length: empty name, zero length
    let data = b"d4:infodee".to_vec();
    let doc = parse_bencode(&data).expect("well-formed bencode");
    let info = torrent_info_of(&doc).expect("well-formed torrent");
    assert_eq!(info.name, "");
    assert_eq!(info.files.len(), 1);
    assert_eq!(info.files[0].length, 0);
    assert_eq!(info.files[0].path, "");
}
