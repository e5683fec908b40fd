use replay_parser::bits::BitReader;
use replay_parser::crc::calc_crc;
use replay_parser::errors::ParseError;
use replay_parser::models::{AttributeValue, CacheProp, ClassNetCache, HeaderProp, RemoteId,
    TickMark, UniqueId};
use replay_parser::network::build_class_graph;
use replay_parser::parser::{CrcCheck, NetworkParse, Parser, ParserBuilder};
use replay_parser::text::{decode_utf16le, decode_windows1252};
use replay_parser::decimal::{i32_to_string, u64_to_string};

fn le_u32(v: u32) -> [u8; 4] {
    v.to_le_bytes()
}

fn le_i32(v: i32) -> [u8; 4] {
    v.to_le_bytes()
}

/// A length-prefixed Windows-1252 string with its trailing NUL.
fn text(s: &str) -> Vec<u8> {
    let mut out = Vec::new();
    out.extend_from_slice(&le_i32(s.len() as i32 + 1));
    out.extend_from_slice(s.as_bytes());
    out.push(0);
    out
}

/// A minimal valid body: every list empty, no network data.
fn minimal_body() -> Vec<u8> {
    let mut b = Vec::new();
    for _ in 0..10 {
        b.extend_from_slice(&le_i32(0));
    }
    b
}

/// A minimal valid header: old version, a game type, no properties.
fn minimal_header() -> Vec<u8> {
    let mut h = Vec::new();
    h.extend_from_slice(&le_i32(105));
    h.extend_from_slice(&le_i32(0));
    h.extend_from_slice(&text("TAGame.Replay_Soccar_TA"));
    h.extend_from_slice(&text("None"));
    h
}

/// Frames a header and body into a whole replay, computing real checksums
/// unless overridden.
fn frame_replay(header: &[u8], body: &[u8], hcrc: Option<u32>, ccrc: Option<u32>) -> Vec<u8> {
    let mut out = Vec::new();
    out.extend_from_slice(&le_i32(header.len() as i32));
    out.extend_from_slice(&le_u32(hcrc.unwrap_or_else(|| calc_crc(header))));
    out.extend_from_slice(header);
    out.extend_from_slice(&le_i32(body.len() as i32));
    out.extend_from_slice(&le_u32(ccrc.unwrap_or_else(|| calc_crc(body))));
    out.extend_from_slice(body);
    out
}

/// Rewrites the four bytes at `free` so that the checksum of
/// `data[start..end]` becomes `target`; the four bytes must lie in that
/// range.
fn force_crc(data: &mut [u8], start: usize, end: usize, free: usize, target: u32) {
    let cur = calc_crc(&data[start..end]);
    let mut rows: Vec<(u32, u32)> = Vec::new();
    for i in 0..32usize {
        let byte = free + i / 8;
        let bit = (i % 8) as u8;
        data[byte] ^= 1 << bit;
        let flipped = calc_crc(&data[start..end]);
        data[byte] ^= 1 << bit;
        rows.push((flipped ^ cur, 1u32 << i));
    }
    let mut need = cur ^ target;
    let mut sel: u32 = 0;
    for bit in (0..32usize).rev() {
        let pos = rows.iter().position(|r| r.0 & (1 << bit) != 0);
        match pos {
            Some(p) => {
                let row = rows.remove(p);
                for r in rows.iter_mut() {
                    if r.0 & (1 << bit) != 0 {
                        r.0 ^= row.0;
                        r.1 ^= row.1;
                    }
                }
                if need & (1 << bit) != 0 {
                    need ^= row.0;
                    sel ^= row.1;
                }
            },
            None => assert!(need & (1 << bit) == 0, "checksum system unsolvable"),
        }
    }
    assert_eq!(need, 0);
    for i in 0..32usize {
        if sel & (1 << i) != 0 {
            data[free + i / 8] ^= 1 << (i % 8);
        }
    }
    assert_eq!(calc_crc(&data[start..end]), target);
}

/// A replay whose body fails at the debug-info list, with the count field
/// placed so the failure offset is exactly 1010894.
fn list_too_large_replay(ccrc: Option<u32>) -> Vec<u8> {
    let header = minimal_header();
    let b0 = 16 + header.len();
    let n = 1010894 - 16 - b0;
    let mut body = Vec::new();
    body.extend_from_slice(&le_i32(0));
    body.extend_from_slice(&le_i32(0));
    body.extend_from_slice(&le_i32(n as i32));
    body.extend_from_slice(&vec![0u8; n]);
    body.extend_from_slice(&le_i32(0x7FFF_FFFF));
    frame_replay(&header, &body, None, ccrc)
}

#[test]
fn key_frame_list() {
    // List is 2A long, each keyframe is 12 bytes. Then add four for list length = 508
    let mut data = Vec::new();
    data.extend_from_slice(&le_i32(42));
    for i in 0..42 {
        data.extend_from_slice(&le_u32(0x3F80_0000));
        data.extend_from_slice(&le_i32(i));
        data.extend_from_slice(&le_i32(100 + i));
    }
    assert_eq!(data.len(), 508);
    let mut parser = Parser::new(&data[..], CrcCheck::Never, NetworkParse::Never);
    let frames = parser.parse_keyframe().unwrap();
    assert_eq!(frames.len(), 42);
}

#[test]
fn tickmark_list() {
    let mut data = Vec::new();
    data.extend_from_slice(&le_i32(7));
    data.extend_from_slice(&text("Team1Goal"));
    data.extend_from_slice(&le_i32(396));
    for i in 0..6 {
        data.extend_from_slice(&text("Team0Goal"));
        data.extend_from_slice(&le_i32(500 + i));
    }
    let mut parser = Parser::new(&data[..], CrcCheck::Never, NetworkParse::Never);
    let ticks = parser.parse_tickmarks().unwrap();

    assert_eq!(ticks.len(), 7);
    assert_eq!(
        ticks[0],
        TickMark {
            description: String::from("Team1Goal"),
            frame: 396,
        }
    );
}

#[test]
fn test_the_parsing_empty() {
    let mut parser = Parser::new(&[], CrcCheck::Never, NetworkParse::Never);
    assert!(parser.parse().is_err());
}

#[test]
fn test_the_parsing_text_too_long() {
    let mut data = frame_replay(&minimal_header(), &minimal_body(), None, None);
    // The game type's length prefix sits after the framing and versions.
    data[16..20].copy_from_slice(&le_i32(0x7FFF_FFFF));
    let mut parser = Parser::new(&data[..], CrcCheck::Never, NetworkParse::Never);
    assert!(parser.parse().is_err())
}

#[test]
fn test_the_parsing_text_too_long2() {
    let mut data = frame_replay(&minimal_header(), &minimal_body(), None, None);
    data[16..20].copy_from_slice(&le_i32(-1912602609));
    let mut parser = Parser::new(&data[..], CrcCheck::Never, NetworkParse::Always);
    let err = parser.parse().unwrap_err();
    assert!(err.message().contains("Unexpected size for string: -1912602609"));
}

#[test]
fn test_fuzz_corpus_slice_index() {
    let data = frame_replay(&minimal_header(), &minimal_body(), None, None);
    let mut parser = Parser::new(&data[..20], CrcCheck::Never, NetworkParse::Never);
    assert!(parser.parse().is_err())
}

#[test]
fn test_the_fuzz_corpus_abs_panic() {
    let mut data = frame_replay(&minimal_header(), &minimal_body(), None, None);
    data[0..4].copy_from_slice(&le_i32(i32::MIN));
    let mut parser = Parser::new(&data[..], CrcCheck::Never, NetworkParse::Never);
    assert!(parser.parse().is_err())
}

#[test]
fn test_the_fuzz_corpus_large_list() {
    let data = list_too_large_replay(None);
    let mut parser = Parser::new(&data[..], CrcCheck::Never, NetworkParse::Never);
    let err = parser.parse().unwrap_err();
    assert!(err
        .message()
        .starts_with("Could not decode replay debug info at offset (1010894): list of size"));
}

#[test]
fn test_the_fuzz_corpus_large_list_on_error_crc() {
    let data = list_too_large_replay(Some(0xDEAD_BEEF));
    let mut parser = Parser::new(&data[..], CrcCheck::OnError, NetworkParse::Never);
    let err = parser.parse().unwrap_err();
    assert_eq!(
        "Failed to parse body and crc check failed. Replay is corrupt",
        err.message()
    );

    assert!(err
        .cause_message()
        .unwrap()
        .starts_with("Could not decode replay debug info at offset (1010894): list of size"));
}

#[test]
fn test_the_fuzz_corpus_large_list_always_crc() {
    let mut data = list_too_large_replay(Some(3765941959));
    let header_len = minimal_header().len();
    let body_start = 16 + header_len;
    let body_end = data.len();
    // The first four bytes of the raw network blob are free to take any
    // value, so steer the body checksum to the expected one.
    force_crc(&mut data, body_start, body_end, body_start + 12, 1314727725);
    let mut parser = Parser::new(&data[..], CrcCheck::Always, NetworkParse::Never);
    let err = parser.parse().unwrap_err();
    assert_eq!(
        "Crc mismatch. Expected 3765941959 but received 1314727725",
        err.message()
    );
    assert!(!err.has_cause());
}

#[test]
fn test_the_fuzz_object_id_too_large() {
    let header = minimal_header();
    let mut body = Vec::new();
    for _ in 0..9 {
        body.extend_from_slice(&le_i32(0));
    }
    body.extend_from_slice(&le_i32(1));
    body.extend_from_slice(&le_i32(1547));
    body.extend_from_slice(&le_i32(0));
    body.extend_from_slice(&le_i32(1));
    body.extend_from_slice(&le_i32(0));
    let data = frame_replay(&header, &body, None, None);
    let mut parser = Parser::new(&data[..], CrcCheck::Never, NetworkParse::Always);
    let err = parser.parse().unwrap_err();
    assert_eq!("Object Id of 1547 exceeds range", err.message());
    assert!(err.has_cause());
}

#[test]
fn test_the_fuzz_too_many_frames() {
    let mut header = Vec::new();
    header.extend_from_slice(&le_i32(105));
    header.extend_from_slice(&le_i32(0));
    header.extend_from_slice(&text("TAGame.Replay_Soccar_TA"));
    header.extend_from_slice(&text("NumFrames"));
    header.extend_from_slice(&text("IntProperty"));
    header.extend_from_slice(&[0u8; 8]);
    header.extend_from_slice(&le_i32(738197735));
    header.extend_from_slice(&text("None"));
    let data = frame_replay(&header, &minimal_body(), None, None);
    let mut parser = Parser::new(&data[..], CrcCheck::Never, NetworkParse::Always);
    let err = parser.parse().unwrap_err();
    assert_eq!("Too many frames to decode: 738197735", err.message());
    assert!(err.has_cause());
}

/// A replay with a header long enough that byte 4775 sits inside a padding
/// string, arranged so that setting that byte to 100 makes the header's
/// checksum 2877465516 while the file stores 337843175.
fn crc_reference_replay() -> Vec<u8> {
    let pad_len = 5000usize;
    let mut header = Vec::new();
    header.extend_from_slice(&le_i32(105));
    header.extend_from_slice(&le_i32(0));
    header.extend_from_slice(&text("x"));
    header.extend_from_slice(&text("Pad"));
    header.extend_from_slice(&text("StrProperty"));
    header.extend_from_slice(&[0u8; 8]);
    let pad: String = std::iter::repeat('A').take(pad_len).collect();
    header.extend_from_slice(&text(&pad));
    header.extend_from_slice(&text("None"));
    let mut data = frame_replay(&header, &minimal_body(), Some(337843175), None);
    // Steer the modified header's checksum while byte 4775 holds 100, then
    // restore the byte; the test flips it back before parsing.
    let header_start = 8;
    let header_end = 8 + header.len();
    let free = 58 + pad_len - 4;
    assert!(4775 > 58 && 4775 < free);
    let original = data[4775];
    data[4775] = 100;
    force_crc(&mut data, header_start, header_end, free, 2877465516);
    data[4775] = original;
    data
}

#[test]
fn test_crc_check_with_bad() {
    let mut data = crc_reference_replay();

    // Changing this byte won't make the parsing fail but will make the crc check fail
    data[4775] = 100;
    let mut parser = Parser::new(&data[..], CrcCheck::Always, NetworkParse::Never);
    let res = parser.parse();
    assert!(res.is_err());
    assert_eq!(
        "Crc mismatch. Expected 337843175 but received 2877465516",
        res.unwrap_err().message()
    );

    parser = Parser::new(&data[..], CrcCheck::OnError, NetworkParse::Never);
    assert!(parser.parse().is_ok());
}

#[test]
fn empty_buffer_reports_insufficient_bytes_at_zero() {
    let mut parser = Parser::new(&[], CrcCheck::Never, NetworkParse::Never);
    let err = parser.parse().unwrap_err();
    match err {
        ParseError::Section(section, offset, cause) => {
            assert_eq!(section, "header size");
            assert_eq!(offset, 0);
            match *cause {
                ParseError::InsufficientBytes { expected, available, offset } => {
                    assert_eq!(expected, 4);
                    assert_eq!(available, 0);
                    assert_eq!(offset, 0);
                },
                other => panic!("unexpected cause: {:?}", other),
            }
        },
        other => panic!("unexpected error: {:?}", other),
    }
}

#[test]
fn minimal_replay_parses_under_every_policy() {
    let data = frame_replay(&minimal_header(), &minimal_body(), None, None);
    for crc in [CrcCheck::Always, CrcCheck::Never, CrcCheck::OnError] {
        for net in [NetworkParse::Always, NetworkParse::Never, NetworkParse::IgnoreOnError] {
            let mut parser = Parser::new(&data[..], crc, net);
            let replay = parser.parse().unwrap();
            assert_eq!(replay.major_version, 105);
            assert_eq!(replay.minor_version, 0);
            assert_eq!(replay.net_version, None);
            assert_eq!(replay.game_type, "TAGame.Replay_Soccar_TA");
            assert!(replay.properties.is_empty());
            assert!(replay.levels.is_empty());
            assert!(replay.keyframes.is_empty());
        }
    }
}

#[test]
fn skipping_network_strips_only_frames() {
    let data = frame_replay(&minimal_header(), &minimal_body(), None, None);
    let mut p1 = Parser::new(&data[..], CrcCheck::Never, NetworkParse::Never);
    let r1 = p1.parse().unwrap();
    let mut p2 = Parser::new(&data[..], CrcCheck::Never, NetworkParse::Always);
    let r2 = p2.parse().unwrap();
    assert_eq!(r1.network_frames, None);
    assert!(r2.network_frames.is_some());
    assert_eq!(r1.header_size, r2.header_size);
    assert_eq!(r1.game_type, r2.game_type);
    assert_eq!(r1.keyframes, r2.keyframes);
    assert_eq!(r1.objects, r2.objects);
    assert_eq!(r1.net_cache, r2.net_cache);
}

#[test]
fn builder_defaults_and_policies() {
    let data = frame_replay(&minimal_header(), &minimal_body(), None, None);
    let replay = ParserBuilder::new(&data[..]).parse().unwrap();
    assert_eq!(replay.major_version, 105);
    let replay2 = ParserBuilder::new(&data[..])
        .always_check_crc()
        .never_parse_network_data()
        .parse()
        .unwrap();
    assert_eq!(replay2.network_frames, None);
    let replay3 = ParserBuilder::new(&data[..])
        .never_check_crc()
        .must_parse_network_data()
        .parse()
        .unwrap();
    assert!(replay3.network_frames.is_some());
    let replay4 = ParserBuilder::new(&data[..])
        .on_error_check_crc()
        .ignore_network_data_on_error()
        .parse()
        .unwrap();
    assert_eq!(replay4.major_version, 105);
    let replay5 = ParserBuilder::new(&data[..])
        .with_crc_check(CrcCheck::Always)
        .with_network_parse(NetworkParse::Never)
        .parse()
        .unwrap();
    assert_eq!(replay5.network_frames, None);
}

#[test]
fn single_byte_flip_changes_checksum() {
    let mut data = frame_replay(&minimal_header(), &minimal_body(), None, None);
    let before = calc_crc(&data[..]);
    data[10] ^= 0x01;
    let after = calc_crc(&data[..]);
    assert_ne!(before, after);
}

#[test]
fn corrupt_body_byte_fails_always_crc() {
    let mut data = frame_replay(&minimal_header(), &minimal_body(), None, None);
    // Corrupt one byte of the stored body checksum: the structure still
    // parses, so only the Always policy notices.
    let len = data.len();
    data[len - 44] ^= 0xFF;
    let mut parser = Parser::new(&data[..], CrcCheck::Always, NetworkParse::Never);
    assert!(parser.parse().is_err());
    let mut parser2 = Parser::new(&data[..], CrcCheck::OnError, NetworkParse::Never);
    assert!(parser2.parse().is_ok());
}

#[test]
fn header_property_kinds_round_trip() {
    let mut header = Vec::new();
    header.extend_from_slice(&le_i32(868));
    header.extend_from_slice(&le_i32(20));
    header.extend_from_slice(&le_i32(7));
    header.extend_from_slice(&text("TAGame.Replay_Soccar_TA"));
    // BoolProperty
    header.extend_from_slice(&text("Flag"));
    header.extend_from_slice(&text("BoolProperty"));
    header.extend_from_slice(&[0u8; 8]);
    header.push(1);
    // ByteProperty with a platform kind carries no value string
    header.extend_from_slice(&text("Platform"));
    header.extend_from_slice(&text("ByteProperty"));
    header.extend_from_slice(&[0u8; 8]);
    header.extend_from_slice(&text("OnlinePlatform_Steam"));
    // ByteProperty with an ordinary kind carries a value string
    header.extend_from_slice(&text("Mode"));
    header.extend_from_slice(&text("ByteProperty"));
    header.extend_from_slice(&[0u8; 8]);
    header.extend_from_slice(&text("Kind"));
    header.extend_from_slice(&text("Value"));
    // IntProperty
    header.extend_from_slice(&text("Goals"));
    header.extend_from_slice(&text("IntProperty"));
    header.extend_from_slice(&[0u8; 8]);
    header.extend_from_slice(&le_i32(-3));
    // QWordProperty
    header.extend_from_slice(&text("Id"));
    header.extend_from_slice(&text("QWordProperty"));
    header.extend_from_slice(&[0u8; 8]);
    header.extend_from_slice(&0x1122334455667788u64.to_le_bytes());
    // StrProperty and NameProperty
    header.extend_from_slice(&text("MatchName"));
    header.extend_from_slice(&text("StrProperty"));
    header.extend_from_slice(&[0u8; 8]);
    header.extend_from_slice(&text("ranked"));
    header.extend_from_slice(&text("Alias"));
    header.extend_from_slice(&text("NameProperty"));
    header.extend_from_slice(&[0u8; 8]);
    header.extend_from_slice(&text("alias"));
    // FloatProperty holds the raw bits
    header.extend_from_slice(&text("Scale"));
    header.extend_from_slice(&text("FloatProperty"));
    header.extend_from_slice(&[0u8; 8]);
    header.extend_from_slice(&le_u32(0x3F80_0000));
    // ArrayProperty with two single-entry trees
    header.extend_from_slice(&text("Rows"));
    header.extend_from_slice(&text("ArrayProperty"));
    header.extend_from_slice(&[0u8; 8]);
    header.extend_from_slice(&le_i32(2));
    for i in 0..2 {
        header.extend_from_slice(&text("N"));
        header.extend_from_slice(&text("IntProperty"));
        header.extend_from_slice(&[0u8; 8]);
        header.extend_from_slice(&le_i32(i));
        header.extend_from_slice(&text("None"));
    }
    header.extend_from_slice(&text("None"));
    let data = frame_replay(&header, &minimal_body(), None, None);
    let replay = ParserBuilder::new(&data[..]).never_check_crc().parse().unwrap();
    assert_eq!(replay.net_version, Some(7));
    assert_eq!(replay.properties.len(), 9);
    assert_eq!(replay.properties[0].0, "Flag");
    assert_eq!(replay.properties[0].1, HeaderProp::Bool(true));
    assert_eq!(
        replay.properties[1].1,
        HeaderProp::Byte { kind: String::from("OnlinePlatform_Steam"), value: None }
    );
    assert_eq!(
        replay.properties[2].1,
        HeaderProp::Byte { kind: String::from("Kind"), value: Some(String::from("Value")) }
    );
    assert_eq!(replay.properties[3].1, HeaderProp::Int(-3));
    assert_eq!(replay.properties[4].1, HeaderProp::QWord(0x1122334455667788));
    assert_eq!(replay.properties[5].1, HeaderProp::Str(String::from("ranked")));
    assert_eq!(replay.properties[6].1, HeaderProp::Name(String::from("alias")));
    assert_eq!(replay.properties[7].1, HeaderProp::Float(0x3F80_0000));
    match &replay.properties[8].1 {
        HeaderProp::Array(rows) => {
            assert_eq!(rows.len(), 2);
            assert_eq!(rows[0][0].1, HeaderProp::Int(0));
            assert_eq!(rows[1][0].1, HeaderProp::Int(1));
        },
        other => panic!("expected array, got {:?}", other),
    }
}

#[test]
fn unknown_property_type_is_rejected() {
    let mut header = Vec::new();
    header.extend_from_slice(&le_i32(105));
    header.extend_from_slice(&le_i32(0));
    header.extend_from_slice(&text("x"));
    header.extend_from_slice(&text("Weird"));
    header.extend_from_slice(&text("ComplexProperty"));
    header.extend_from_slice(&[0u8; 8]);
    header.extend_from_slice(&text("None"));
    let data = frame_replay(&header, &minimal_body(), None, None);
    let err = ParserBuilder::new(&data[..]).never_check_crc().parse().unwrap_err();
    assert_eq!("Unknown property type: ComplexProperty", err.message());
}

#[test]
fn error_messages_render_exactly() {
    assert_eq!(
        "Crc mismatch. Expected 1 but received 4294967295",
        ParseError::CrcMismatch(1, u32::MAX).message()
    );
    assert_eq!(
        "Insufficient data. Expected 4 bytes, but only 0 left",
        ParseError::InsufficientBytes { expected: 4, available: 0, offset: 9 }.message()
    );
    assert_eq!("list of size 77 is too large", ParseError::ListTooLarge(77).message());
    assert_eq!("Unexpected size for string: -7", ParseError::InvalidStringSize(-7).message());
}

#[test]
fn decimal_renders_exactly() {
    assert_eq!("0", u64_to_string(0).as_str());
    assert_eq!("18446744073709551615", u64_to_string(u64::MAX).as_str());
    assert_eq!("-2147483648", i32_to_string(i32::MIN).as_str());
    assert_eq!("396", i32_to_string(396).as_str());
}

#[test]
fn text_decoders_follow_the_encodings() {
    assert_eq!("\u{20AC}abc", decode_windows1252(&[0x80, 0x61, 0x62, 0x63]).as_str());
    assert_eq!("\u{178}", decode_windows1252(&[0x9F]).as_str());
    assert_eq!("\u{7F}", decode_windows1252(&[0x7F]).as_str());
    // UTF-16: an ASCII pair and a surrogate pair
    assert_eq!("hi", decode_utf16le(&[0x68, 0x00, 0x69, 0x00]).as_str());
    assert_eq!("\u{1F600}", decode_utf16le(&[0x3D, 0xD8, 0x00, 0xDE]).as_str());
}

struct BitBuf {
    bytes: Vec<u8>,
    used: usize,
}

impl BitBuf {
    fn new() -> Self {
        BitBuf { bytes: Vec::new(), used: 0 }
    }

    fn push_bit(&mut self, b: bool) {
        if self.used % 8 == 0 {
            self.bytes.push(0);
        }
        if b {
            let n = self.bytes.len();
            self.bytes[n - 1] |= 1 << (self.used % 8);
        }
        self.used += 1;
    }

    fn push_bits(&mut self, v: u64, n: usize) {
        for i in 0..n {
            self.push_bit(v & (1 << i) != 0);
        }
    }
}

#[test]
fn serialized_int_reads_until_the_bound() {
    // Value five below a bound of six consumes three bits.
    let data = [0b0000_0101u8];
    let mut br = BitReader::new(&data);
    let v = br.serialized_int(6).unwrap();
    assert_eq!(v, 5);
    assert_eq!(br.pos, 3);
}

#[test]
fn network_frame_with_one_spawn_decodes() {
    let mut header = Vec::new();
    header.extend_from_slice(&le_i32(105));
    header.extend_from_slice(&le_i32(0));
    header.extend_from_slice(&text("x"));
    header.extend_from_slice(&text("NumFrames"));
    header.extend_from_slice(&text("IntProperty"));
    header.extend_from_slice(&[0u8; 8]);
    header.extend_from_slice(&le_i32(1));
    header.extend_from_slice(&text("None"));

    let mut bits = BitBuf::new();
    bits.push_bits(0x3F80_0000, 32); // time
    bits.push_bits(0x3C23_D70A, 32); // delta
    bits.push_bit(true); // a channel follows
    bits.push_bits(5, 10); // actor id, ten bits for 1023 channels
    bits.push_bit(true); // alive
    bits.push_bit(true); // newly spawned
    bits.push_bit(false); // no name id
    bits.push_bits(0, 32); // object id 0
    bits.push_bit(false); // no more channels
    let net = bits.bytes;

    let mut body = Vec::new();
    body.extend_from_slice(&le_i32(0)); // levels
    body.extend_from_slice(&le_i32(0)); // keyframes
    body.extend_from_slice(&le_i32(net.len() as i32));
    body.extend_from_slice(&net);
    body.extend_from_slice(&le_i32(0)); // debug
    body.extend_from_slice(&le_i32(0)); // tick marks
    body.extend_from_slice(&le_i32(0)); // packages
    body.extend_from_slice(&le_i32(1)); // objects
    body.extend_from_slice(&text("MyThing"));
    body.extend_from_slice(&le_i32(0)); // names
    body.extend_from_slice(&le_i32(1)); // class indices
    body.extend_from_slice(&text("MyThing"));
    body.extend_from_slice(&le_i32(0));
    body.extend_from_slice(&le_i32(1)); // net cache
    body.extend_from_slice(&le_i32(0)); // object_ind
    body.extend_from_slice(&le_i32(0)); // parent_id
    body.extend_from_slice(&le_i32(1)); // cache_id
    body.extend_from_slice(&le_i32(0)); // no properties

    let data = frame_replay(&header, &body, None, None);
    let replay = ParserBuilder::new(&data[..])
        .never_check_crc()
        .must_parse_network_data()
        .parse()
        .unwrap();
    let frames = replay.network_frames.unwrap().frames;
    assert_eq!(frames.len(), 1);
    assert_eq!(frames[0].time_bits, 0x3F80_0000);
    assert_eq!(frames[0].delta_bits, 0x3C23_D70A);
    assert_eq!(frames[0].new_actors.len(), 1);
    assert_eq!(frames[0].new_actors[0].actor_id, 5);
    assert_eq!(frames[0].new_actors[0].object_id, 0);
    assert_eq!(frames[0].new_actors[0].name_id, None);
}

#[test]
fn class_graph_child_shadows_parent() {
    let objects: Vec<String> = vec![
        String::from("Engine.Actor:bBlockActors"),
        String::from("Engine.Actor:DrawScale"),
        String::from("Engine.PlayerReplicationInfo:Ping"),
    ];
    let net_cache = vec![
        ClassNetCache {
            object_ind: 0,
            parent_id: 0,
            cache_id: 1,
            properties: vec![
                CacheProp { object_ind: 0, stream_id: 4 },
                CacheProp { object_ind: 1, stream_id: 9 },
            ],
        },
        ClassNetCache {
            object_ind: 1,
            parent_id: 1,
            cache_id: 2,
            properties: vec![CacheProp { object_ind: 2, stream_id: 9 }],
        },
    ];
    let infos = build_class_graph(&objects, &net_cache).unwrap();
    assert_eq!(infos.len(), 2);
    // The child inherits stream 4 and shadows stream 9 with its own entry.
    let child = &infos[1];
    let lookup = |sid: i32| -> Option<i32> {
        child
            .props
            .iter()
            .rev()
            .find(|p| p.stream_id == sid)
            .map(|p| p.object_ind)
    };
    assert_eq!(lookup(4), Some(0));
    assert_eq!(lookup(9), Some(2));
    assert_eq!(lookup(7), None);
}

#[test]
fn missing_num_frames_falls_back_to_stream_bound() {
    // Without a NumFrames property the decoder still walks the stream,
    // bounded by its bytes over a per-frame floor.
    let mut header = Vec::new();
    header.extend_from_slice(&le_i32(105));
    header.extend_from_slice(&le_i32(0));
    header.extend_from_slice(&text("x"));
    header.extend_from_slice(&text("None"));

    let mut bits = BitBuf::new();
    bits.push_bits(0x3F80_0000, 32); // time
    bits.push_bits(0x3C23_D70A, 32); // delta
    bits.push_bit(false); // no channels
    while bits.used % 8 != 0 {
        bits.push_bit(false);
    }
    let net = bits.bytes;

    let mut body = Vec::new();
    body.extend_from_slice(&le_i32(0));
    body.extend_from_slice(&le_i32(0));
    body.extend_from_slice(&le_i32(net.len() as i32));
    body.extend_from_slice(&net);
    for _ in 0..7 {
        body.extend_from_slice(&le_i32(0));
    }
    let data = frame_replay(&header, &body, None, None);
    let replay = ParserBuilder::new(&data[..])
        .never_check_crc()
        .must_parse_network_data()
        .parse()
        .unwrap();
    let frames = replay.network_frames.unwrap().frames;
    assert_eq!(frames.len(), 1);
    assert_eq!(frames[0].time_bits, 0x3F80_0000);
}

#[test]
fn large_max_channels_widens_actor_ids() {
    // A MaxChannels above the engine's default is honored: the actor id
    // is read with the wider field.
    let mut header = Vec::new();
    header.extend_from_slice(&le_i32(105));
    header.extend_from_slice(&le_i32(0));
    header.extend_from_slice(&text("x"));
    header.extend_from_slice(&text("NumFrames"));
    header.extend_from_slice(&text("IntProperty"));
    header.extend_from_slice(&[0u8; 8]);
    header.extend_from_slice(&le_i32(1));
    header.extend_from_slice(&text("MaxChannels"));
    header.extend_from_slice(&text("IntProperty"));
    header.extend_from_slice(&[0u8; 8]);
    header.extend_from_slice(&le_i32(200000));
    header.extend_from_slice(&text("None"));

    let mut bits = BitBuf::new();
    bits.push_bits(0x3F80_0000, 32); // time
    bits.push_bits(0x3C23_D70A, 32); // delta
    bits.push_bit(true); // a channel follows
    bits.push_bits(150000, 18); // actor id, eighteen bits for 200000 channels
    bits.push_bit(true); // alive
    bits.push_bit(true); // newly spawned
    bits.push_bit(false); // no name id
    bits.push_bits(0, 32); // object id 0
    bits.push_bit(false); // no more channels
    let net = bits.bytes;

    let mut body = Vec::new();
    body.extend_from_slice(&le_i32(0)); // levels
    body.extend_from_slice(&le_i32(0)); // keyframes
    body.extend_from_slice(&le_i32(net.len() as i32));
    body.extend_from_slice(&net);
    body.extend_from_slice(&le_i32(0)); // debug
    body.extend_from_slice(&le_i32(0)); // tick marks
    body.extend_from_slice(&le_i32(0)); // packages
    body.extend_from_slice(&le_i32(1)); // objects
    body.extend_from_slice(&text("MyThing"));
    body.extend_from_slice(&le_i32(0)); // names
    body.extend_from_slice(&le_i32(1)); // class indices
    body.extend_from_slice(&text("MyThing"));
    body.extend_from_slice(&le_i32(0));
    body.extend_from_slice(&le_i32(1)); // net cache
    body.extend_from_slice(&le_i32(0)); // object_ind
    body.extend_from_slice(&le_i32(0)); // parent_id
    body.extend_from_slice(&le_i32(1)); // cache_id
    body.extend_from_slice(&le_i32(0)); // no properties

    let data = frame_replay(&header, &body, None, None);
    let replay = ParserBuilder::new(&data[..])
        .never_check_crc()
        .must_parse_network_data()
        .parse()
        .unwrap();
    let frames = replay.network_frames.unwrap().frames;
    assert_eq!(frames.len(), 1);
    assert_eq!(frames[0].new_actors[0].actor_id, 150000);
}

#[test]
fn unsupported_attribute_shape_is_reported_by_name() {
    // A class cache that references a property absent from the attribute
    // registry aborts the network decode, naming the property.
    let header = minimal_header();
    let mut body = Vec::new();
    body.extend_from_slice(&le_i32(0)); // levels
    body.extend_from_slice(&le_i32(0)); // keyframes
    body.extend_from_slice(&le_i32(0)); // network data
    body.extend_from_slice(&le_i32(0)); // debug
    body.extend_from_slice(&le_i32(0)); // tick marks
    body.extend_from_slice(&le_i32(0)); // packages
    body.extend_from_slice(&le_i32(1)); // objects
    body.extend_from_slice(&text("TAGame.Mystery_TA:Unreplicated"));
    body.extend_from_slice(&le_i32(0)); // names
    body.extend_from_slice(&le_i32(0)); // class indices
    body.extend_from_slice(&le_i32(1)); // net cache
    body.extend_from_slice(&le_i32(0)); // object_ind
    body.extend_from_slice(&le_i32(0)); // parent_id
    body.extend_from_slice(&le_i32(1)); // cache_id
    body.extend_from_slice(&le_i32(1)); // one property
    body.extend_from_slice(&le_i32(0)); // prop object_ind
    body.extend_from_slice(&le_i32(5)); // prop stream_id
    let data = frame_replay(&header, &body, None, None);
    let err = ParserBuilder::new(&data[..])
        .never_check_crc()
        .must_parse_network_data()
        .parse()
        .unwrap_err();
    assert_eq!(
        "Unimplemented attribute: TAGame.Mystery_TA:Unreplicated",
        err.message()
    );
}

#[test]
fn attribute_update_decodes_club_colors() {
    // A spawned actor receives a club-colors update dispatched through the
    // flattened class cache.
    let mut header = Vec::new();
    header.extend_from_slice(&le_i32(105));
    header.extend_from_slice(&le_i32(0));
    header.extend_from_slice(&text("x"));
    header.extend_from_slice(&text("NumFrames"));
    header.extend_from_slice(&text("IntProperty"));
    header.extend_from_slice(&[0u8; 8]);
    header.extend_from_slice(&le_i32(1));
    header.extend_from_slice(&text("None"));

    let mut bits = BitBuf::new();
    bits.push_bits(0x3F80_0000, 32); // time
    bits.push_bits(0x3C23_D70A, 32); // delta
    // spawn actor five
    bits.push_bit(true);
    bits.push_bits(5, 10);
    bits.push_bit(true); // alive
    bits.push_bit(true); // newly spawned
    bits.push_bit(false); // no name id
    bits.push_bits(0, 32); // object id 0
    // update actor five: stream id four under a bound of five
    bits.push_bit(true);
    bits.push_bits(5, 10);
    bits.push_bit(true); // alive
    bits.push_bit(false); // existing
    bits.push_bit(true); // an attribute follows
    bits.push_bit(false); // serialized int: weight one unset
    bits.push_bit(false); // weight two unset
    bits.push_bit(true); // weight four set -> stream id four
    bits.push_bit(true); // blue flag
    bits.push_bits(3, 8); // blue color
    bits.push_bit(false); // orange flag
    bits.push_bits(7, 8); // orange color
    bits.push_bit(false); // no more attributes
    bits.push_bit(false); // no more channels
    let net = bits.bytes;

    let mut body = Vec::new();
    body.extend_from_slice(&le_i32(0)); // levels
    body.extend_from_slice(&le_i32(0)); // keyframes
    body.extend_from_slice(&le_i32(net.len() as i32));
    body.extend_from_slice(&net);
    body.extend_from_slice(&le_i32(0)); // debug
    body.extend_from_slice(&le_i32(0)); // tick marks
    body.extend_from_slice(&le_i32(0)); // packages
    body.extend_from_slice(&le_i32(2)); // objects
    body.extend_from_slice(&text("MyThing"));
    body.extend_from_slice(&text("TAGame.Team_TA:ClubColors"));
    body.extend_from_slice(&le_i32(0)); // names
    body.extend_from_slice(&le_i32(1)); // class indices
    body.extend_from_slice(&text("MyThing"));
    body.extend_from_slice(&le_i32(0));
    body.extend_from_slice(&le_i32(1)); // net cache
    body.extend_from_slice(&le_i32(0)); // object_ind
    body.extend_from_slice(&le_i32(0)); // parent_id
    body.extend_from_slice(&le_i32(1)); // cache_id
    body.extend_from_slice(&le_i32(1)); // one property
    body.extend_from_slice(&le_i32(1)); // prop object_ind -> club colors
    body.extend_from_slice(&le_i32(4)); // prop stream_id

    let data = frame_replay(&header, &body, None, None);
    let replay = ParserBuilder::new(&data[..])
        .never_check_crc()
        .must_parse_network_data()
        .parse()
        .unwrap();
    let frames = replay.network_frames.unwrap().frames;
    assert_eq!(frames.len(), 1);
    assert_eq!(frames[0].new_actors.len(), 1);
    assert_eq!(frames[0].updated_actors.len(), 1);
    let upd = &frames[0].updated_actors[0];
    assert_eq!(upd.actor_id, 5);
    assert_eq!(upd.stream_id, 4);
    assert_eq!(upd.object_id, 1);
    assert_eq!(
        upd.attribute,
        AttributeValue::ClubColors {
            blue_flag: true,
            blue_color: 3,
            orange_flag: false,
            orange_color: 7,
        }
    );
}

#[test]
fn spawn_resolves_through_parent_classes() {
    // An archetype whose concrete class has no cache entry resolves to the
    // nearest ancestor along the parent-class table that has one.
    let mut header = Vec::new();
    header.extend_from_slice(&le_i32(105));
    header.extend_from_slice(&le_i32(0));
    header.extend_from_slice(&text("x"));
    header.extend_from_slice(&text("NumFrames"));
    header.extend_from_slice(&text("IntProperty"));
    header.extend_from_slice(&[0u8; 8]);
    header.extend_from_slice(&le_i32(1));
    header.extend_from_slice(&text("None"));

    let mut bits = BitBuf::new();
    bits.push_bits(0x3F80_0000, 32); // time
    bits.push_bits(0x3C23_D70A, 32); // delta
    bits.push_bit(true);
    bits.push_bits(9, 10); // actor id
    bits.push_bit(true); // alive
    bits.push_bit(true); // newly spawned
    bits.push_bit(false); // no name id
    bits.push_bits(0, 32); // object id 0 -> TAGame.Default__PRI_TA
    // spawn trajectory: location only; a two-bit width, three magnitudes
    bits.push_bits(2, 5);
    bits.push_bits(5, 4);
    bits.push_bits(9, 4);
    bits.push_bits(0, 4);
    bits.push_bit(false); // no more channels
    let net = bits.bytes;

    let mut body = Vec::new();
    body.extend_from_slice(&le_i32(0)); // levels
    body.extend_from_slice(&le_i32(0)); // keyframes
    body.extend_from_slice(&le_i32(net.len() as i32));
    body.extend_from_slice(&net);
    body.extend_from_slice(&le_i32(0)); // debug
    body.extend_from_slice(&le_i32(0)); // tick marks
    body.extend_from_slice(&le_i32(0)); // packages
    body.extend_from_slice(&le_i32(2)); // objects
    body.extend_from_slice(&text("TAGame.Default__PRI_TA"));
    body.extend_from_slice(&text("ProjectX.PRI_X"));
    body.extend_from_slice(&le_i32(0)); // names
    body.extend_from_slice(&le_i32(1)); // class indices: only the ancestor
    body.extend_from_slice(&text("ProjectX.PRI_X"));
    body.extend_from_slice(&le_i32(1));
    body.extend_from_slice(&le_i32(1)); // net cache
    body.extend_from_slice(&le_i32(1)); // object_ind -> ProjectX.PRI_X
    body.extend_from_slice(&le_i32(0)); // parent_id
    body.extend_from_slice(&le_i32(1)); // cache_id
    body.extend_from_slice(&le_i32(0)); // no properties

    let data = frame_replay(&header, &body, None, None);
    let replay = ParserBuilder::new(&data[..])
        .never_check_crc()
        .must_parse_network_data()
        .parse()
        .unwrap();
    let frames = replay.network_frames.unwrap().frames;
    assert_eq!(frames.len(), 1);
    assert_eq!(frames[0].new_actors.len(), 1);
    assert_eq!(frames[0].new_actors[0].actor_id, 9);
    let loc = frames[0].new_actors[0].initial_trajectory.location.unwrap();
    assert_eq!(loc.x, 5 - 8);
    assert_eq!(loc.y, 9 - 8);
    assert_eq!(loc.z, 0 - 8);
}

#[test]
fn attribute_update_decodes_steam_unique_id() {
    let mut header = Vec::new();
    header.extend_from_slice(&le_i32(105));
    header.extend_from_slice(&le_i32(0));
    header.extend_from_slice(&text("x"));
    header.extend_from_slice(&text("NumFrames"));
    header.extend_from_slice(&text("IntProperty"));
    header.extend_from_slice(&[0u8; 8]);
    header.extend_from_slice(&le_i32(1));
    header.extend_from_slice(&text("None"));

    let mut bits = BitBuf::new();
    bits.push_bits(0x3F80_0000, 32); // time
    bits.push_bits(0x3C23_D70A, 32); // delta
    bits.push_bit(true);
    bits.push_bits(3, 10);
    bits.push_bit(true); // alive
    bits.push_bit(true); // newly spawned
    bits.push_bit(false); // no name id
    bits.push_bits(0, 32); // object id 0
    bits.push_bit(true);
    bits.push_bits(3, 10);
    bits.push_bit(true); // alive
    bits.push_bit(false); // existing
    bits.push_bit(true); // an attribute follows
    bits.push_bit(true); // serialized int: weight one set -> stream id one under two
    bits.push_bits(1, 8); // system: steam
    bits.push_bits(0x0123_4567_89AB_CDEF, 64); // steam id
    bits.push_bits(2, 8); // local id
    bits.push_bit(false); // no more attributes
    bits.push_bit(false); // no more channels
    let net = bits.bytes;

    let mut body = Vec::new();
    body.extend_from_slice(&le_i32(0)); // levels
    body.extend_from_slice(&le_i32(0)); // keyframes
    body.extend_from_slice(&le_i32(net.len() as i32));
    body.extend_from_slice(&net);
    body.extend_from_slice(&le_i32(0)); // debug
    body.extend_from_slice(&le_i32(0)); // tick marks
    body.extend_from_slice(&le_i32(0)); // packages
    body.extend_from_slice(&le_i32(2)); // objects
    body.extend_from_slice(&text("MyThing"));
    body.extend_from_slice(&text("Engine.PlayerReplicationInfo:UniqueId"));
    body.extend_from_slice(&le_i32(0)); // names
    body.extend_from_slice(&le_i32(1)); // class indices
    body.extend_from_slice(&text("MyThing"));
    body.extend_from_slice(&le_i32(0));
    body.extend_from_slice(&le_i32(1)); // net cache
    body.extend_from_slice(&le_i32(0)); // object_ind
    body.extend_from_slice(&le_i32(0)); // parent_id
    body.extend_from_slice(&le_i32(1)); // cache_id
    body.extend_from_slice(&le_i32(1)); // one property
    body.extend_from_slice(&le_i32(1)); // prop object_ind -> unique id
    body.extend_from_slice(&le_i32(1)); // prop stream_id

    let data = frame_replay(&header, &body, None, None);
    let replay = ParserBuilder::new(&data[..])
        .never_check_crc()
        .must_parse_network_data()
        .parse()
        .unwrap();
    let frames = replay.network_frames.unwrap().frames;
    assert_eq!(frames[0].updated_actors.len(), 1);
    assert_eq!(
        frames[0].updated_actors[0].attribute,
        AttributeValue::UniqueId(UniqueId {
            system_id: 1,
            remote_id: RemoteId::Steam(0x0123_4567_89AB_CDEF),
            local_id: 2,
        })
    );
}

#[test]
fn game_mode_width_follows_the_replay_version() {
    // On replays older than v868.12 the game mode is a two-bit field.
    let mut header = Vec::new();
    header.extend_from_slice(&le_i32(105));
    header.extend_from_slice(&le_i32(0));
    header.extend_from_slice(&text("x"));
    header.extend_from_slice(&text("NumFrames"));
    header.extend_from_slice(&text("IntProperty"));
    header.extend_from_slice(&[0u8; 8]);
    header.extend_from_slice(&le_i32(1));
    header.extend_from_slice(&text("None"));

    let mut bits = BitBuf::new();
    bits.push_bits(0x3F80_0000, 32); // time
    bits.push_bits(0x3C23_D70A, 32); // delta
    bits.push_bit(true);
    bits.push_bits(4, 10);
    bits.push_bit(true); // alive
    bits.push_bit(true); // newly spawned
    bits.push_bit(false); // no name id
    bits.push_bits(0, 32); // object id 0
    bits.push_bit(true);
    bits.push_bits(4, 10);
    bits.push_bit(true); // alive
    bits.push_bit(false); // existing
    bits.push_bit(true); // an attribute follows
    bits.push_bit(true); // serialized int: stream id one under two
    bits.push_bits(2, 2); // the game mode, two bits on this old version
    bits.push_bit(false); // no more attributes
    bits.push_bit(false); // no more channels
    let net = bits.bytes;

    let mut body = Vec::new();
    body.extend_from_slice(&le_i32(0)); // levels
    body.extend_from_slice(&le_i32(0)); // keyframes
    body.extend_from_slice(&le_i32(net.len() as i32));
    body.extend_from_slice(&net);
    body.extend_from_slice(&le_i32(0)); // debug
    body.extend_from_slice(&le_i32(0)); // tick marks
    body.extend_from_slice(&le_i32(0)); // packages
    body.extend_from_slice(&le_i32(2)); // objects
    body.extend_from_slice(&text("MyThing"));
    body.extend_from_slice(&text("TAGame.GameEvent_TA:GameMode"));
    body.extend_from_slice(&le_i32(0)); // names
    body.extend_from_slice(&le_i32(1)); // class indices
    body.extend_from_slice(&text("MyThing"));
    body.extend_from_slice(&le_i32(0));
    body.extend_from_slice(&le_i32(1)); // net cache
    body.extend_from_slice(&le_i32(0)); // object_ind
    body.extend_from_slice(&le_i32(0)); // parent_id
    body.extend_from_slice(&le_i32(1)); // cache_id
    body.extend_from_slice(&le_i32(1)); // one property
    body.extend_from_slice(&le_i32(1)); // prop object_ind -> game mode
    body.extend_from_slice(&le_i32(1)); // prop stream_id

    let data = frame_replay(&header, &body, None, None);
    let replay = ParserBuilder::new(&data[..])
        .never_check_crc()
        .must_parse_network_data()
        .parse()
        .unwrap();
    let frames = replay.network_frames.unwrap().frames;
    assert_eq!(frames[0].updated_actors.len(), 1);
    assert_eq!(frames[0].updated_actors[0].attribute, AttributeValue::GameMode(2));
}
