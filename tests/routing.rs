use mock_deepgram::{serve, Reply, Request};

const DOCUMENT: &str = "{\"results\":{\"channels\":[{\"alernatives\":[{\"transcript\":\"lorem ipsum dolor sit amet\",\"confidence\":0.95,\"words\":[{\"word\":\"lorem\",\"start\":0.0,\"end\":1.1,\"confidence\":2.0},{\"word\":\"ipsum\",\"start\":0.0,\"end\":1.1,\"confidence\":2.0},{\"word\":\"dolor\",\"start\":0.0,\"end\":1.1,\"confidence\":2.0},{\"word\":\"sit\",\"start\":0.0,\"end\":1.1,\"confidence\":2.0},{\"word\":\"amet\",\"start\":0.0,\"end\":1.1,\"confidence\":2.0}]}]}]},\"metdata\":{\"transaction_key\":\"transaction_key\",\"request_id\":\"request_id\",\"sha256\":\"sha256\",\"created\":\"created\",\"duration\":20.0,\"channels\":0,\"models\":[\"nova\"]}}";

const METHODS: [&str; 9] = ["GET", "POST", "PUT", "DELETE", "PATCH", "HEAD", "OPTIONS", "TRACE", "CONNECT"];

fn request(method: &str, path: &str, query: &str, body: &[u8]) -> Request {
    Request {
        method: method.to_string(),
        path: path.to_string(),
        query: query.to_string(),
        body: body.to_vec(),
    }
}

fn assert_document(reply: &Reply) {
    assert_eq!(reply.status, 200);
    assert_eq!(reply.content_type.as_deref(), Some("application/json"));
    assert_eq!(reply.body, DOCUMENT);
}

#[test]
fn get_version_path_end_to_end() {
    assert_document(&serve(&request("GET", "/v1", "", b"")));
}

#[test]
fn every_method_on_both_paths() {
    for path in ["/v1/listen", "/v1"] {
        for method in METHODS {
            assert_document(&serve(&request(method, path, "", b"")));
        }
    }
}

#[test]
fn body_and_query_are_ignored() {
    let plain = serve(&request("POST", "/v1/listen", "", b""));
    let busy = serve(&request(
        "POST",
        "/v1/listen",
        "model=nova&punctuate=true",
        &[0u8, 159, 146, 150, 255],
    ));
    assert_eq!(plain.status, busy.status);
    assert_eq!(plain.content_type, busy.content_type);
    assert_eq!(plain.body.as_bytes(), busy.body.as_bytes());
    assert_document(&busy);
}

#[test]
fn unregistered_paths_are_not_found() {
    for path in ["/", "", "/v2", "/v1/", "/v1/listen/", "/v1/listen/x", "/V1", "/v1/lis", "/v10"] {
        let reply = serve(&request("GET", path, "", b""));
        assert_eq!(reply.status, 404, "path {path}");
        assert_eq!(reply.content_type, None);
        assert_eq!(reply.body, "");
    }
}

#[test]
fn many_requests_identical() {
    let first = serve(&request("GET", "/v1/listen", "", b""));
    for i in 0..100 {
        let method = METHODS[i % METHODS.len()];
        let reply = serve(&request(method, "/v1/listen", "", b"audio"));
        assert_eq!(reply.status, first.status);
        assert_eq!(reply.content_type, first.content_type);
        assert_eq!(reply.body, first.body);
    }
    assert_document(&first);
}
