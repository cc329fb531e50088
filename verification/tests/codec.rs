use boozle::codec::{decode_msg, decode_req, decode_res, encode_msg, encode_req, encode_res};
use boozle::protocol::req::{Call, Free, Req, Ty};
use boozle::protocol::{res, Dir, Msg};
use boozle::value::{Lit, Value};

fn le64(x: u64) -> Vec<u8> {
    x.to_le_bytes().to_vec()
}

#[test]
fn free_request_exact_bytes() {
    let req = Req { id: 5, ty: Ty::Free(Free { object_id: 7 }) };
    let bytes = encode_req(&req);
    let mut expected = le64(5);
    expected.push(1); // payload tag: free
    expected.extend(le64(7));
    assert_eq!(bytes, expected);
}

#[test]
fn call_request_exact_bytes() {
    let req = Req {
        id: 1,
        ty: Ty::Call(Call {
            mutable: true,
            object_id: 2,
            method_id: 3,
            argument: Some(Value::Lit(Lit(vec![0xAA, 0xBB]))),
            to_object_id: None,
        }),
    };
    let bytes = encode_req(&req);
    let mut expected = le64(1);
    expected.push(0); // payload tag: call
    expected.push(1); // mutable
    expected.extend(le64(2)); // object_id
    expected.extend(le64(3)); // method_id
    expected.push(1); // argument present
    expected.push(0); // value tag: lit
    expected.extend(le64(2)); // payload length
    expected.extend([0xAA, 0xBB]);
    expected.push(0); // to_object_id absent
    assert_eq!(bytes, expected);
}

#[test]
fn call_request_round_trips() {
    let req = Req {
        id: 42,
        ty: Ty::Call(Call {
            mutable: false,
            object_id: u64::MAX,
            method_id: 0,
            argument: Some(Value::Ref { owner: 9, id: 11 }),
            to_object_id: Some(0),
        }),
    };
    let bytes = encode_req(&req);
    assert_eq!(decode_req(&bytes), Some(req));
}

#[test]
fn free_request_round_trips() {
    let req = Req { id: 3, ty: Ty::Free(Free { object_id: u64::MAX - 4 }) };
    let bytes = encode_req(&req);
    assert_eq!(decode_req(&bytes), Some(req));
}

#[test]
fn response_round_trips() {
    let with_value = res::Res {
        id: 8,
        ty: res::Ty::Call(res::Return { value: Some(Value::Lit(Lit(vec![6, 0, 0, 0, 0, 0, 0, 0]))) }),
    };
    let bytes = encode_res(&with_value);
    assert_eq!(decode_res(&bytes), Some(with_value));

    let empty = res::Res { id: 9, ty: res::Ty::Call(res::Return { value: None }) };
    let bytes = encode_res(&empty);
    assert_eq!(decode_res(&bytes), Some(empty));

    let free = res::Res { id: 10, ty: res::Ty::Free };
    let bytes = encode_res(&free);
    assert_eq!(decode_res(&bytes), Some(free));
}

#[test]
fn msg_exact_bytes_and_round_trip() {
    let msg = Msg::req(vec![0xAB]);
    assert_eq!(msg.dir, Dir::Req);
    let bytes = encode_msg(&msg);
    let mut expected = vec![0u8]; // direction tag: request
    expected.extend(le64(1)); // payload length
    expected.push(0xAB);
    assert_eq!(bytes, expected);
    assert_eq!(decode_msg(&bytes), Some(Msg::req(vec![0xAB])));

    let msg = Msg::res(vec![]);
    assert_eq!(msg.dir, Dir::Res);
    let bytes = encode_msg(&msg);
    assert_eq!(bytes, [vec![1u8], le64(0)].concat());
    assert_eq!(decode_msg(&bytes), Some(Msg::res(vec![])));
}

#[test]
fn unknown_tags_rejected() {
    // direction tag 2 is no direction
    assert_eq!(decode_msg(&[vec![2u8], le64(0)].concat()), None);
    // request payload tag 2 is no payload
    assert_eq!(decode_req(&[le64(1), vec![2u8], le64(7)].concat()), None);
    // boolean byte 2 is no boolean
    let mut bad_call = le64(1);
    bad_call.push(0); // call
    bad_call.push(2); // mutable: bad
    bad_call.extend(le64(2));
    bad_call.extend(le64(3));
    bad_call.push(0);
    bad_call.push(0);
    assert_eq!(decode_req(&bad_call), None);
    // response payload tag 3 is no payload
    assert_eq!(decode_res(&[le64(1), vec![3u8]].concat()), None);
}

#[test]
fn truncated_and_padded_input_rejected() {
    let req = Req { id: 5, ty: Ty::Free(Free { object_id: 7 }) };
    let bytes = encode_req(&req);
    // every strict prefix is rejected
    assert_eq!(decode_req(&bytes[..bytes.len() - 1].to_vec()), None);
    assert_eq!(decode_req(&Vec::new()), None);
    // trailing bytes are rejected
    let mut padded = bytes.clone();
    padded.push(0);
    assert_eq!(decode_req(&padded), None);
    // a length prefix pointing past the end is rejected
    let msg = [vec![0u8], le64(100), vec![1, 2, 3]].concat();
    assert_eq!(decode_msg(&msg), None);
}
