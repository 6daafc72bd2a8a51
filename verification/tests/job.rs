use pvf_host::job::{Response, TAG_DONE, TAG_FAILED};

fn parts(response: Option<Response>) -> Option<(bool, Vec<u8>)> {
    match response {
        Some(Response::Done(body)) => Some((true, body)),
        Some(Response::Failed(body)) => Some((false, body)),
        None => None,
    }
}

#[test]
fn response_is_a_tag_and_a_body() {
    assert_eq!(TAG_DONE, 0);
    assert_eq!(TAG_FAILED, 1);
    assert_eq!(Response::Done(vec![7, 8]).encode(), vec![0, 7, 8]);
    assert_eq!(Response::Failed(vec![7, 8]).encode(), vec![1, 7, 8]);
    assert_eq!(Response::Done(vec![]).encode(), vec![0]);
}

#[test]
fn response_round_trip() {
    for body in [vec![], vec![0], vec![1], vec![0, 1, 2, 255], vec![9; 1000]] {
        let done = Response::Done(body.clone()).encode();
        assert_eq!(parts(Response::decode(&done)), Some((true, body.clone())));
        let failed = Response::Failed(body.clone()).encode();
        assert_eq!(parts(Response::decode(&failed)), Some((false, body)));
    }
}

#[test]
fn response_decode_refuses_empty_and_unknown_tags() {
    assert_eq!(parts(Response::decode(&[])), None);
    assert_eq!(parts(Response::decode(&[2])), None);
    assert_eq!(parts(Response::decode(&[255, 0, 1])), None);
}
