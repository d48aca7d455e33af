use http2parse::{
    rand_for_payload, Error, ErrorCode, Flag, FrameHeader, Kind, Payload, Priority, Setting,
    SettingIdentifier, Settings, SizeIncrement, StreamIdentifier,
};
use rand::Rng;

fn leak<T>(v: Vec<T>) -> &'static [T] {
    Box::leak(v.into_boxed_slice())
}

fn rand_buf<R: Rng>(rng: &mut R) -> &'static [u8] {
    let len = rng.gen_range(0..200);
    let mut buf = vec![0; len];
    rng.fill(&mut buf[..]);
    leak(buf)
}

fn rand_priority<R: Rng>(rng: &mut R) -> Priority {
    Priority {
        exclusive: rng.gen(),
        dependency: StreamIdentifier(rng.gen_range(0..1 << 31)),
        weight: rng.gen(),
    }
}

fn rand_settings<R: Rng>(rng: &mut R) -> Settings<'static> {
    let len = rng.gen_range(0..200);
    let ids = [1u16, 2, 3, 4, 5];
    let records: Vec<Setting> = (0..len)
        .map(|_| Setting::new(ids[rng.gen_range(0..ids.len())], rng.gen()))
        .collect();
    let mut bytes = vec![0u8; 6 * records.len()];
    Setting::encode_all(&records, &mut bytes);
    Settings::parse(leak(bytes)).unwrap()
}

fn rand_payload<R: Rng>(rng: &mut R) -> Payload<'static> {
    match rng.gen_range(0..11) {
        0 => Payload::Data { data: rand_buf(rng) },
        1 => Payload::Headers {
            priority: if rng.gen() { Some(rand_priority(rng)) } else { None },
            block: rand_buf(rng),
        },
        2 => Payload::Priority(rand_priority(rng)),
        3 => Payload::Reset(ErrorCode(rng.gen())),
        4 => Payload::Settings(rand_settings(rng)),
        5 => Payload::PushPromise {
            promised: StreamIdentifier(rng.gen_range(0..1 << 31)),
            block: rand_buf(rng),
        },
        6 => Payload::Ping(rng.gen()),
        7 => Payload::GoAway {
            last: StreamIdentifier(rng.gen_range(0..1 << 31)),
            error: ErrorCode(rng.gen()),
            data: rand_buf(rng),
        },
        8 => Payload::WindowUpdate(SizeIncrement(rng.gen())),
        9 => Payload::Continuation(rand_buf(rng)),
        _ => Payload::Unregistered(rand_buf(rng)),
    }
}

fn header(length: u32, kind: u8, flag: u8) -> FrameHeader {
    FrameHeader {
        length,
        kind: Kind::new(kind),
        flag: Flag::new(flag).unwrap(),
        id: StreamIdentifier(1),
    }
}

#[test]
fn test_specific_encode() {
    fn roundtrip(buf: &mut [u8], payload: Payload) {
        payload.encode(buf);

        assert_eq!(payload, Payload::parse(rand_for_payload(&payload), &buf).unwrap());
    }

    let mut buf = vec![0; 5000];
    roundtrip(&mut buf, Payload::PushPromise { promised: StreamIdentifier(2000064271), block: &[255, 108, 25, 19, 189, 134, 191, 26, 27, 56, 65, 237, 220, 161, 73, 167, 246, 154, 248, 216, 236, 6, 23, 200, 56, 128, 239, 218, 193, 25, 221, 115, 37, 74, 50, 35, 75, 254, 88, 173, 24, 193, 220, 201, 102, 114, 187, 68, 8, 59, 205, 49, 180, 217, 170, 241, 11, 155, 115, 146, 109, 160, 85, 197, 32, 243, 191, 94, 96, 143, 206, 11, 244, 4, 244, 136, 201, 232, 111, 246, 251, 139, 81, 67, 116, 16, 201, 109, 121, 170, 48, 38, 23, 99, 101, 182, 111, 110, 202, 153, 0, 230, 87, 242, 206, 72, 196, 106, 200, 243, 48, 16, 33, 205, 65, 112, 132, 150, 89, 161, 108, 231, 155, 243, 123, 92, 141, 128, 204, 33, 207] });
    roundtrip(&mut buf, Payload::Ping(4513863121605750535));
}

#[test]
fn test_randomized_encoded_len() {
    fn roundtrip(buf: &mut [u8], payload: Payload, round: usize) {
        let len = payload.encoded_len();
        let encoded = payload.encode(buf);

        assert!(
            encoded == len,
            "Bad roundtrip! encoded={:?}, len={:?}, payload={:#?}, round={:?}",
            encoded,
            len,
            payload,
            round
        )
    }

    let mut rng = rand::thread_rng();
    let mut buf = vec![0; 5000];
    for round in 0..1000 {
        roundtrip(&mut buf, rand_payload(&mut rng), round)
    }
}

#[test]
fn test_randomized_encode() {
    fn roundtrip(buf: &mut [u8], payload: Payload) {
        payload.encode(buf);

        assert_eq!(payload, Payload::parse(rand_for_payload(&payload), &buf).unwrap());
    }

    let mut rng = rand::thread_rng();
    let mut buf = vec![0; 5000];
    for _ in 0..1000 {
        roundtrip(&mut buf, rand_payload(&mut rng))
    }
}

#[test]
fn no_test_encoded_len_because_no_rand() {
    let payloads = [
        (Payload::Data { data: &[1, 2, 3] }, 3),
        (Payload::Headers { priority: None, block: &[1, 2] }, 2),
        (
            Payload::Headers {
                priority: Some(Priority {
                    exclusive: true,
                    dependency: StreamIdentifier(7),
                    weight: 9,
                }),
                block: &[1, 2],
            },
            7,
        ),
        (Payload::Reset(ErrorCode(1)), 4),
        (Payload::Settings(Settings::parse(&[0, 3, 0, 0, 0, 100]).unwrap()), 6),
        (Payload::PushPromise { promised: StreamIdentifier(3), block: &[9] }, 5),
        (Payload::Ping(1), 8),
        (Payload::GoAway { last: StreamIdentifier(1), error: ErrorCode(2), data: &[3, 4] }, 10),
        (Payload::WindowUpdate(SizeIncrement(1)), 4),
        (Payload::Continuation(&[1]), 1),
        (Payload::Unregistered(&[]), 0),
    ];
    let mut buf = [0u8; 16];
    for (payload, len) in payloads.iter() {
        assert_eq!(payload.encoded_len(), *len);
        assert_eq!(payload.encode(&mut buf), *len);
    }
}

#[test]
fn no_test_encode_because_no_rand() {
    let payload = Payload::GoAway {
        last: StreamIdentifier(0x0102_0304),
        error: ErrorCode(0x0A0B_0C0D),
        data: &[0xEE, 0xFF],
    };
    let mut buf = [0u8; 12];
    assert_eq!(payload.encode(&mut buf), 10);
    assert_eq!(buf, [1, 2, 3, 4, 0x0A, 0x0B, 0x0C, 0x0D, 0xEE, 0xFF, 0, 0]);
    let parsed = Payload::parse(header(10, 7, 0), &buf).unwrap();
    assert_eq!(parsed, payload);
}

#[test]
fn empty_data_payload() {
    let parsed = Payload::parse(header(0, 0, 0), &[]).unwrap();
    assert_eq!(parsed, Payload::Data { data: &[] });
}

#[test]
fn settings_payload_with_one_record() {
    let buf = [0x00, 0x03, 0x00, 0x00, 0x00, 0x64];
    match Payload::parse(header(6, 4, 0), &buf).unwrap() {
        Payload::Settings(settings) => {
            assert_eq!(settings.len(), 1);
            let setting = settings.get(0);
            assert_eq!(setting, Setting::new(3, 100));
            assert_eq!(setting.identifier(), Some(SettingIdentifier::MaxConcurrentStreams));
            assert_eq!(setting.value(), 100);
            assert_eq!(settings.to_vec(), vec![Setting::new(3, 100)]);
        }
        other => panic!("not a settings payload: {:?}", other),
    }
}

#[test]
fn unregistered_setting_is_kept() {
    let buf = [0x00, 0x07, 0x00, 0x00, 0x01, 0x00, 0x00, 0x01, 0, 0, 0, 2];
    let settings = Settings::parse(&buf).unwrap();
    assert_eq!(settings.len(), 2);
    assert_eq!(settings.get(0).identifier, 7);
    assert_eq!(settings.get(0).identifier(), None);
    assert_eq!(settings.get(0).value(), 256);
    assert_eq!(settings.get(1).identifier(), Some(SettingIdentifier::HeaderTableSize));
    let mut out = [0u8; 12];
    assert_eq!(Setting::encode_all(&settings.to_vec(), &mut out), 12);
    assert_eq!(out, buf);
}

#[test]
fn minimum_lengths_are_enforced() {
    let buf = [0u8; 16];
    assert_eq!(Payload::parse(header(3, 3, 0), &buf), Err(Error::PayloadLengthTooShort));
    assert_eq!(Payload::parse(header(7, 6, 0), &buf), Err(Error::InvalidPayloadLength));
    assert_eq!(Payload::parse(header(9, 6, 0), &buf), Err(Error::InvalidPayloadLength));
    assert_eq!(Payload::parse(header(7, 4, 0), &buf), Err(Error::PartialSettingLength));
    assert_eq!(Payload::parse(header(3, 8, 0), &buf), Err(Error::InvalidPayloadLength));
    assert_eq!(Payload::parse(header(7, 7, 0), &buf), Err(Error::PayloadLengthTooShort));
    assert_eq!(Payload::parse(header(3, 5, 0), &buf), Err(Error::PayloadLengthTooShort));
    assert_eq!(Payload::parse(header(4, 2, 0), &buf), Err(Error::PayloadLengthTooShort));
    assert_eq!(Payload::parse(header(4, 1, 0x20), &buf), Err(Error::PayloadLengthTooShort));
    assert_eq!(Payload::parse(header(0, 0, 0x08), &buf), Err(Error::PayloadLengthTooShort));
    assert_eq!(Payload::parse(header(5, 1, 0x28), &buf), Err(Error::PayloadLengthTooShort));
}

#[test]
fn short_buffer_fails() {
    assert_eq!(Payload::parse(header(4, 0, 0), &[1, 2, 3]), Err(Error::Short));
}

#[test]
fn padding_equal_to_length_is_rejected() {
    let buf = [4u8, 0, 0, 0];
    assert_eq!(Payload::parse(header(4, 0, 0x08), &buf), Err(Error::TooMuchPadding(4)));
    let buf = [9u8, 0, 0, 0];
    assert_eq!(Payload::parse(header(4, 0, 0x08), &buf), Err(Error::TooMuchPadding(9)));
}

#[test]
fn padding_is_stripped() {
    let buf = [2u8, 0xAA, 0xBB, 0, 0, 0xCC];
    assert_eq!(
        Payload::parse(header(5, 0, 0x08), &buf).unwrap(),
        Payload::Data { data: &[0xAA, 0xBB] }
    );
    let buf = [3u8, 0, 0, 0];
    assert_eq!(Payload::parse(header(4, 0, 0x08), &buf).unwrap(), Payload::Data { data: &[] });
}

#[test]
fn padded_headers_with_priority() {
    let buf = [1u8, 0x80, 0, 0, 5, 16, 0xAB, 0];
    let parsed = Payload::parse(header(8, 1, 0x28), &buf).unwrap();
    let priority = Priority { exclusive: true, dependency: StreamIdentifier(5), weight: 16 };
    assert_eq!(parsed, Payload::Headers { priority: Some(priority), block: &[0xAB] });
    assert_eq!(parsed.priority(), Some(&priority));
    let buf = [1u8, 0, 0, 0, 5, 0];
    assert_eq!(Payload::parse(header(6, 1, 0x28), &buf), Err(Error::PayloadLengthTooShort));
}

#[test]
fn priority_fields_codec() {
    let p = Priority { exclusive: true, dependency: StreamIdentifier(0x0102_0304), weight: 7 };
    let mut buf = [0u8; 6];
    assert_eq!(p.encode(&mut buf), 5);
    assert_eq!(buf, [0x81, 0x02, 0x03, 0x04, 7, 0]);
    let (rest, parsed) = Priority::parse(true, &buf).unwrap();
    assert_eq!(parsed, Some(p));
    assert_eq!(rest, &[0]);
    let (rest, parsed) = Priority::parse(false, &buf).unwrap();
    assert_eq!(parsed, None);
    assert_eq!(rest, &buf[..]);
    assert_eq!(Priority::parse(true, &buf[..4]), Err(Error::PayloadLengthTooShort));
}

#[test]
fn unknown_kind_passes_through() {
    let buf = [1u8, 2, 3, 4, 5];
    let parsed = Payload::parse(header(4, 200, 0), &buf).unwrap();
    assert_eq!(parsed, Payload::Unregistered(&[1, 2, 3, 4]));
    assert_eq!(parsed.kind(), Kind::Unregistered);
}

#[test]
fn window_update_keeps_top_bit() {
    let buf = [0x80u8, 0, 0, 1];
    assert_eq!(
        Payload::parse(header(4, 8, 0), &buf).unwrap(),
        Payload::WindowUpdate(SizeIncrement(0x8000_0001))
    );
}

#[test]
fn push_promise_and_ping_parse() {
    let buf = [0x80u8, 0, 0, 3, 0xAA];
    assert_eq!(
        Payload::parse(header(5, 5, 0), &buf).unwrap(),
        Payload::PushPromise { promised: StreamIdentifier(3), block: &[0xAA] }
    );
    let buf = [0u8, 0, 0, 0, 0, 0, 1, 2];
    assert_eq!(Payload::parse(header(8, 6, 0x1), &buf).unwrap(), Payload::Ping(0x0102));
    assert_eq!(Payload::Ping(0).padded(), None);
}

#[test]
fn header_for_payload_describes_it() {
    let p = Payload::Priority(Priority {
        exclusive: false,
        dependency: StreamIdentifier(1),
        weight: 0,
    });
    let h = FrameHeader::for_payload(&p, StreamIdentifier(9));
    assert_eq!(h.length, 5);
    assert_eq!(h.kind, Kind::Priority);
    assert_eq!(h.flag, Flag::priority());
    assert_eq!(h.id, StreamIdentifier(9));
    let d = Payload::Data { data: &[1, 2] };
    let h = rand_for_payload(&d);
    assert_eq!(h.length, 2);
    assert_eq!(h.flag, Flag::empty());
    assert!(h.id.0 < 1 << 31);
}
