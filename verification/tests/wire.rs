use maze_game::wire::base64::{decode_b64, encode_b64};
use maze_game::wire::error::ProtocolError;
use maze_game::wire::frame::{decode_message, encode_message, frame_body_len};
use maze_game::wire::messages::RelativeDirection;
use maze_game::wire::radar::{decode_radar_view_binary, encode_radar_view_binary};
use maze_game::wire::utils::{
    debug_binary, decimal_text, generate_acess_key, generate_random_number, has_key_form,
};
use serde_json::Value;

fn register_team_ok_json() -> Value {
    let mut fields = serde_json::Map::new();
    fields.insert("expected_players".to_string(), Value::from(3u8));
    fields.insert("registration_token".to_string(), Value::from("SECRET"));
    let mut outcome = serde_json::Map::new();
    outcome.insert("Ok".to_string(), Value::Object(fields));
    let mut message = serde_json::Map::new();
    message.insert("RegisterTeamResult".to_string(), Value::Object(outcome));
    Value::Object(message)
}

#[test]
fn test_encode_message() {
    let message = register_team_ok_json();
    let body = serde_json::to_string(&message).unwrap();
    let encoded = encode_message(body.as_bytes()).expect("Encodage message OK");
    assert!(encoded.len() >= 4);
    let header_bytes = &encoded[..4];
    let payload_len = u32::from_le_bytes(header_bytes.try_into().unwrap()) as usize;
    let payload_bytes = &encoded[4..];
    assert_eq!(payload_len, payload_bytes.len());
    let decoded_message: Value = serde_json::from_slice(payload_bytes).expect("Désérialisation OK");
    assert_eq!(decoded_message, message);
}

#[test]
fn test_decode_message() {
    let message = register_team_ok_json();
    let encoded = {
        let json_string = serde_json::to_string(&message).unwrap();
        let json_bytes = json_string.as_bytes();
        let payload_len = json_bytes.len() as u32;
        let mut buffer = Vec::with_capacity(4 + json_bytes.len());
        buffer.extend_from_slice(&payload_len.to_le_bytes());
        buffer.extend_from_slice(json_bytes);
        buffer
    };
    let body = decode_message(&encoded).expect("Décodage message OK");
    let decoded: Value = serde_json::from_slice(&body).unwrap();
    assert_eq!(decoded, message);
}

#[test]
fn test_decode_b64() {
    let data = b"Hello, World!";
    let encoded = encode_b64(data);
    let decoded = decode_b64(&encoded).expect("Décodage base64 OK");
    assert_eq!(decoded, data);
}

#[test]
fn test_decode_b64_invalid_length() {
    let invalid = "abcde";
    assert!(decode_b64(invalid).is_err());
}

#[test]
fn test_encode_b64() {
    assert_eq!(encode_b64(&[0]), "aa");
    assert_eq!(encode_b64(&[25]), "gq");
    assert_eq!(encode_b64(&[26]), "gG");
    assert_eq!(encode_b64(&[51]), "mW");
    assert_eq!(encode_b64(&[52]), "na");
    assert_eq!(encode_b64(&[61]), "pq");
    assert_eq!(encode_b64(&[62]), "pG");
    assert_eq!(encode_b64(&[63]), "pW");
    assert_eq!(encode_b64(b"Hello, World!"), "sgvSBg8SifDVCMXKiq");
}

#[test]
fn b64_group_sizes() {
    assert_eq!(encode_b64(&[]), "");
    assert_eq!(encode_b64(&[255]).len(), 2);
    assert_eq!(encode_b64(&[255, 255]).len(), 3);
    assert_eq!(encode_b64(&[255, 255, 255]), "////");
    assert_eq!(encode_b64(&[0, 0, 0, 0]).len(), 6);
    assert_eq!(encode_b64(&[0, 16, 131]), "abcd");
    assert_eq!(encode_b64(&[0xfb, 0xff]), "+/8");
}

#[test]
fn b64_round_trip_on_every_byte_and_length() {
    for b in 0..=255u8 {
        assert_eq!(decode_b64(&encode_b64(&[b])), Ok(vec![b]));
        assert_eq!(decode_b64(&encode_b64(&[b, 7])), Ok(vec![b, 7]));
        assert_eq!(decode_b64(&encode_b64(&[1, b, 3])), Ok(vec![1, b, 3]));
    }
    let mut data: Vec<u8> = Vec::new();
    for n in 0..40u8 {
        assert_eq!(decode_b64(&encode_b64(&data)), Ok(data.clone()));
        data.push(n.wrapping_mul(37).wrapping_add(11));
    }
}

#[test]
fn b64_decodes_by_the_alphabet() {
    assert_eq!(decode_b64(""), Ok(vec![]));
    assert_eq!(decode_b64("aa"), Ok(vec![0]));
    assert_eq!(decode_b64("abcd"), Ok(vec![0, 16, 131]));
    assert_eq!(decode_b64("////"), Ok(vec![255, 255, 255]));
    assert_eq!(decode_b64("+/8"), Ok(vec![0xfb, 0xff]));
    assert_eq!(decode_b64("zZ9"), Ok(vec![0x67, 0x3f]));
}

#[test]
fn b64_refuses_lengths_of_the_form_4k_plus_1() {
    assert_eq!(decode_b64("a"), Err(ProtocolError::BadBase64));
    assert_eq!(decode_b64("abcde"), Err(ProtocolError::BadBase64));
    assert_eq!(decode_b64("abcdefghi"), Err(ProtocolError::BadBase64));
}

#[test]
fn b64_refuses_glyphs_outside_the_alphabet() {
    assert_eq!(decode_b64("ab=="), Err(ProtocolError::BadBase64));
    assert_eq!(decode_b64("ab c"), Err(ProtocolError::BadBase64));
    assert_eq!(decode_b64("a-"), Err(ProtocolError::BadBase64));
    assert_eq!(decode_b64("abcdé"), Err(ProtocolError::BadBase64));
    assert_eq!(decode_b64("aé"), Err(ProtocolError::BadBase64));
}

#[test]
fn frame_layout() {
    assert_eq!(encode_message(b""), Ok(vec![0, 0, 0, 0]));
    assert_eq!(encode_message(b"{}"), Ok(vec![2, 0, 0, 0, b'{', b'}']));
    let body = vec![b'x'; 0x0102_03];
    let frame = encode_message(&body).unwrap();
    assert_eq!(&frame[..4], &[0x03, 0x02, 0x01, 0x00]);
    assert_eq!(&frame[4..], &body[..]);
    assert_eq!(frame_body_len(&[0x03, 0x02, 0x01, 0x00]), 0x0102_03);
    assert_eq!(frame_body_len(&[0xff, 0xff, 0xff, 0xff]), u32::MAX);
}

#[test]
fn frame_round_trip() {
    for body in [&b""[..], &b"a"[..], &b"{\"Challenge\":\"SOS\"}"[..]] {
        let frame = encode_message(body).unwrap();
        assert_eq!(decode_message(&frame), Ok(body.to_vec()));
        let mut longer = frame.clone();
        longer.extend_from_slice(b"next frame");
        assert_eq!(decode_message(&longer), Ok(body.to_vec()));
    }
}

#[test]
fn frame_cut_short() {
    assert_eq!(decode_message(&[]), Err(ProtocolError::ShortRead));
    assert_eq!(decode_message(&[1, 0, 0]), Err(ProtocolError::ShortRead));
    assert_eq!(decode_message(&[1, 0, 0, 0]), Err(ProtocolError::ShortRead));
    assert_eq!(decode_message(&[3, 0, 0, 0, b'a', b'b']), Err(ProtocolError::ShortRead));
    assert_eq!(decode_message(&[0, 0, 0, 1, b'a']), Err(ProtocolError::ShortRead));
    assert_eq!(decode_message(&[2, 0, 0, 0, b'a', b'b']), Ok(vec![b'a', b'b']));
}

fn walled_room() -> [[char; 7]; 7] {
    [
        ['•', '-', '•', '-', '•', '-', '•'],
        ['|', ' ', ' ', ' ', ' ', ' ', '|'],
        ['•', ' ', '•', ' ', '•', ' ', '•'],
        ['|', ' ', ' ', ' ', ' ', ' ', '|'],
        ['•', ' ', '•', ' ', '•', ' ', '•'],
        ['|', ' ', ' ', ' ', ' ', ' ', '|'],
        ['•', '-', '•', '-', '•', '-', '•'],
    ]
}

fn walled_room_as_decoded() -> [[char; 7]; 7] {
    [
        ['•', '-', '•', '-', '•', '-', '•'],
        ['|', ' ', ' ', ' ', ' ', ' ', '|'],
        ['•', ' ', ' ', ' ', ' ', ' ', '•'],
        ['|', ' ', ' ', ' ', ' ', ' ', '|'],
        ['•', ' ', ' ', ' ', ' ', ' ', '•'],
        ['|', ' ', ' ', ' ', ' ', ' ', '|'],
        ['•', '-', '•', '-', '•', '-', '•'],
    ]
}

#[test]
fn radar_payload_of_a_walled_room() {
    let payload = encode_radar_view_binary(walled_room());
    assert_eq!(payload, vec![0x6a, 0x55, 0xa9, 0x96, 0x96, 0x96, 0, 0, 0, 0, 0]);
    assert_eq!(decode_radar_view_binary(payload.clone()), Ok(walled_room_as_decoded()));
    assert_eq!(encode_radar_view_binary(walled_room_as_decoded()), payload);
    assert_eq!(
        decode_radar_view_binary(encode_radar_view_binary(walled_room_as_decoded())),
        Ok(walled_room_as_decoded())
    );
    let again = encode_radar_view_binary(decode_radar_view_binary(payload.clone()).unwrap());
    assert_eq!(again, payload);
}

#[test]
fn radar_payload_with_spare_bits() {
    let payload = vec![0xf8, 0xf8, 0xf8, 0x0f, 0x0f, 0x00, 0x00, 0x00, 0x00, 0x00, 0xf0];
    let view = decode_radar_view_binary(payload).unwrap();
    for row in [0usize, 2, 4, 6] {
        assert_eq!([view[row][1], view[row][3], view[row][5]].len(), 3);
    }
    assert_eq!([view[0][1], view[0][3], view[0][5]], ['#', '-', ' ']);
    assert_eq!([view[2][1], view[2][3], view[2][5]], [' ', '#', '-']);
    assert_eq!([view[4][1], view[4][3], view[4][5]], [' ', ' ', '#']);
    assert_eq!([view[6][1], view[6][3], view[6][5]], ['-', ' ', ' ']);
    assert_eq!([view[1][0], view[1][2], view[1][4], view[1][6]], [' ', ' ', '#', '#']);
    assert_eq!([view[3][0], view[3][2], view[3][4], view[3][6]], [' ', ' ', '#', '#']);
    assert_eq!([view[5][0], view[5][2], view[5][4], view[5][6]], ['#', '#', '#', '#']);
    for row in [1usize, 3, 5] {
        for col in [1usize, 3, 5] {
            assert_eq!(view[row][col], ' ');
        }
    }
    assert_eq!(
        encode_radar_view_binary(view),
        vec![0x58, 0x58, 0x58, 0x05, 0x05, 0x00, 0x00, 0x00, 0x00, 0x00, 0x00]
    );
}

#[test]
fn radar_round_trip_keeps_walls_openings_and_cells() {
    let mut view = [['#'; 7]; 7];
    view[0][1] = '-';
    view[0][3] = ' ';
    view[2][5] = '-';
    view[6][1] = ' ';
    view[1][0] = '|';
    view[1][2] = ' ';
    view[3][6] = '|';
    view[5][4] = ' ';
    view[1][1] = ' ';
    view[3][3] = ' ';
    let decoded = decode_radar_view_binary(encode_radar_view_binary(view)).unwrap();
    for row in 0..7 {
        for col in 0..7 {
            if row % 2 == 1 || col % 2 == 1 {
                assert_eq!(decoded[row][col], view[row][col], "tile {row} {col}");
            }
        }
    }
}

#[test]
fn radar_draws_the_goal_and_unknown_glyphs() {
    let mut view = [['#'; 7]; 7];
    view[3][3] = '*';
    view[1][1] = 'x';
    view[0][1] = '|';
    view[1][0] = '-';
    view[2][1] = 'x';
    let payload = encode_radar_view_binary(view);
    assert_eq!(payload[8], 0xf8);
    assert_eq!(payload[6], 0xff);
    let decoded = decode_radar_view_binary(payload).unwrap();
    assert_eq!(decoded[3][3], 'G');
    assert_eq!(decoded[1][1], '#');
    assert_eq!(decoded[0][1], '-');
    assert_eq!(decoded[1][0], '|');
    assert_eq!(decoded[2][1], '#');
}

#[test]
fn radar_intersections_follow_the_walls_beside_them() {
    let mut view = [['#'; 7]; 7];
    view[0][1] = '-';
    view[2][3] = ' ';
    view[4][5] = '-';
    let decoded = decode_radar_view_binary(encode_radar_view_binary(view)).unwrap();
    assert_eq!([decoded[0][0], decoded[0][2], decoded[0][4], decoded[0][6]], ['•', ' ', '#', '#']);
    assert_eq!([decoded[2][0], decoded[2][2], decoded[2][4], decoded[2][6]], ['#', ' ', ' ', '#']);
    assert_eq!([decoded[4][0], decoded[4][2], decoded[4][4], decoded[4][6]], ['#', '#', ' ', '•']);
    assert_eq!([decoded[6][0], decoded[6][2], decoded[6][4], decoded[6][6]], ['#', '#', '#', '#']);
}

#[test]
fn radar_intersection_is_a_wall_only_between_two_walls() {
    let tiles = ['#', ' ', '-'];
    for left in tiles {
        for middle in tiles {
            for right in tiles {
                let mut view = [['#'; 7]; 7];
                view[2][1] = left;
                view[2][3] = middle;
                view[2][5] = right;
                let decoded = decode_radar_view_binary(encode_radar_view_binary(view)).unwrap();
                assert_eq!([decoded[2][1], decoded[2][3], decoded[2][5]], [left, middle, right]);
                for (col, beside) in [(2, (left, middle)), (4, (middle, right))] {
                    let expected = match beside {
                        ('-', '-') => '•',
                        ('#', '#') => '#',
                        _ => ' ',
                    };
                    assert_eq!(decoded[2][col], expected, "{left:?} {middle:?} {right:?} {col}");
                    assert_eq!(decoded[2][col] == '•', beside == ('-', '-'));
                }
                assert_eq!(decoded[2][0], if left == '#' { '#' } else { '•' });
                assert_eq!(decoded[2][6], if right == '#' { '#' } else { '•' });
            }
        }
    }
}

#[test]
fn radar_payload_of_another_length() {
    assert_eq!(decode_radar_view_binary(vec![]), Err(ProtocolError::BadRadarLength));
    assert_eq!(decode_radar_view_binary(vec![0; 10]), Err(ProtocolError::BadRadarLength));
    assert_eq!(decode_radar_view_binary(vec![0; 12]), Err(ProtocolError::BadRadarLength));
    assert!(decode_radar_view_binary(vec![0; 11]).is_ok());
}

#[test]
fn access_keys_have_ten_letters_or_digits() {
    for _ in 0..50 {
        let key = generate_acess_key();
        assert_eq!(key.chars().count(), 10);
        assert!(key.chars().all(|c| c.is_ascii_alphanumeric()));
        assert!(has_key_form(&key));
    }
    assert_ne!(generate_acess_key(), generate_acess_key());
}

#[test]
fn key_form() {
    assert!(has_key_form(&"abcXYZ0189".to_string()));
    assert!(!has_key_form(&"abcXYZ018".to_string()));
    assert!(!has_key_form(&"abcXYZ01890".to_string()));
    assert!(!has_key_form(&"abcXYZ018-".to_string()));
    assert!(!has_key_form(&"abcXYZ018é".to_string()));
    assert!(!has_key_form(&"".to_string()));
}

#[test]
fn random_numbers_stay_in_their_range() {
    for _ in 0..200 {
        let n = generate_random_number(10..=12);
        assert!((10..=12).contains(&n));
    }
    assert_eq!(generate_random_number(7..=7), 7);
    assert_eq!(generate_random_number(-3..=-3), -3);
    let n = generate_random_number(i32::MIN..=i32::MAX);
    assert!(n >= i32::MIN);
}

#[test]
fn binary_text_of_bytes() {
    assert_eq!(debug_binary(&vec![]), "");
    assert_eq!(debug_binary(&vec![0]), "00000000");
    assert_eq!(debug_binary(&vec![5, 255]), "00000101 11111111");
    assert_eq!(debug_binary(&vec![128, 1, 0x5a]), "10000000 00000001 01011010");
}

#[test]
fn decimal_text_of_numbers() {
    assert_eq!(decimal_text(0), "0");
    assert_eq!(decimal_text(7), "7");
    assert_eq!(decimal_text(10), "10");
    assert_eq!(decimal_text(1234567890), "1234567890");
    assert_eq!(decimal_text(u64::MAX), "18446744073709551615");
}

#[test]
fn directions_by_number() {
    assert_eq!(RelativeDirection::from_index(0), RelativeDirection::Front);
    assert_eq!(RelativeDirection::from_index(1), RelativeDirection::Right);
    assert_eq!(RelativeDirection::from_index(2), RelativeDirection::Back);
    assert_eq!(RelativeDirection::from_index(3), RelativeDirection::Left);
    assert_eq!(RelativeDirection::from_index(9), RelativeDirection::Left);
}
