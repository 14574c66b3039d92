use stash_client::records::{
    FindMarkersData, FindPerformers, FindPerformersData, FindSceneMarkers, FindTags, FindTagsData,
};
use stash_client::reply::status_is_success;
use stash_client::{
    Api, ApiError, Body, Envelope, FilterMode, FindMarkersQuery, FindPerformersQuery,
    FindTagsQuery, GqlMarker, Performer, Reply, Request, SceneMarker, Tag,
};

fn tag(id: &str, name: &str) -> Tag {
    Tag { id: id.to_string(), name: name.to_string() }
}

fn performer(id: &str, name: &str) -> Performer {
    Performer { id: id.to_string(), name: name.to_string() }
}

fn marker(id: &str, title: &str) -> SceneMarker {
    SceneMarker { id: id.to_string(), title: title.to_string() }
}

fn tags_data(tags: Vec<Tag>) -> FindTagsData {
    FindTagsData { find_tags: FindTags { tags } }
}

fn performers_data(performers: Vec<Performer>) -> FindPerformersData {
    FindPerformersData { find_performers: FindPerformers { performers } }
}

fn markers_data(scene_markers: Vec<SceneMarker>) -> FindMarkersData {
    FindMarkersData { find_scene_markers: FindSceneMarkers { scene_markers } }
}

fn answered<D>(status: u16, data: Option<D>, errors: Option<Vec<&str>>) -> Reply<D> {
    let errors = errors.map(|list| list.into_iter().map(|message| message.to_string()).collect());
    Reply::Answered { status, body: Body::Decoded(Envelope { data, errors }) }
}

/// A server that answers every request with one status and no readable
/// body, and counts the requests it was sent.
struct Server {
    status: u16,
    requests: usize,
}

impl Server {
    fn answer<V, D>(&mut self, _request: Request<V>) -> Reply<D> {
        self.requests += 1;
        Reply::Answered {
            status: self.status,
            body: Body::Undecodable { reason: "Unauthorized".to_string() },
        }
    }
}

#[test]
fn unauthorized_fails_every_operation_after_a_single_request() {
    let api = Api::new("http://localhost:9999", "wrong");

    let mut server = Server { status: 401, requests: 0 };
    let tags = FindTagsQuery::read_reply(server.answer(api.find_tags()));
    assert_eq!(tags, Err(ApiError::HttpStatus { status: 401 }));
    assert_eq!(server.requests, 1);

    let mut server = Server { status: 401, requests: 0 };
    let request = api.find_markers(vec!["1".to_string()], FilterMode::ByTags);
    let markers = FindMarkersQuery::read_reply(server.answer(request));
    assert_eq!(markers, Err(ApiError::HttpStatus { status: 401 }));
    assert_eq!(server.requests, 1);

    let mut server = Server { status: 401, requests: 0 };
    let performers = FindPerformersQuery::read_reply(server.answer(api.find_performers()));
    assert_eq!(performers, Err(ApiError::HttpStatus { status: 401 }));
    assert_eq!(server.requests, 1);
}

#[test]
fn a_status_outside_200_to_299_is_an_error_that_carries_it() {
    for status in [0u16, 100, 199, 300, 304, 400, 401, 404, 500, 503, 599, 600, 65535] {
        assert!(!status_is_success(status));
        let reply = answered(status, Some(tags_data(vec![tag("1", "a")])), None);
        assert_eq!(FindTagsQuery::read_reply(reply), Err(ApiError::HttpStatus { status }));
    }
}

#[test]
fn every_status_from_200_to_299_is_a_success() {
    for status in [200u16, 201, 204, 250, 299] {
        assert!(status_is_success(status));
        let reply = answered(status, Some(tags_data(vec![tag("1", "a")])), None);
        assert_eq!(FindTagsQuery::read_reply(reply), Ok(vec![tag("1", "a")]));
    }
}

#[test]
fn a_failed_status_hides_whatever_the_body_holds() {
    let with_data = answered(500, Some(performers_data(vec![performer("1", "x")])), None);
    assert_eq!(
        FindPerformersQuery::read_reply(with_data),
        Err(ApiError::HttpStatus { status: 500 })
    );
    let with_errors: Reply<FindPerformersData> = answered(403, None, Some(vec!["forbidden"]));
    assert_eq!(
        FindPerformersQuery::read_reply(with_errors),
        Err(ApiError::HttpStatus { status: 403 })
    );
}

#[test]
fn three_performers_come_back_as_they_were_sent() {
    let reply = answered(
        200,
        Some(performers_data(vec![
            performer("30", "Cleo"),
            performer("10", "Ada"),
            performer("20", "Bea"),
        ])),
        None,
    );
    let performers = FindPerformersQuery::read_reply(reply).unwrap();
    assert_eq!(performers.len(), 3);
    let ids: Vec<&str> = performers.iter().map(|p| p.id.as_str()).collect();
    assert_eq!(ids, vec!["30", "10", "20"]);
    assert_eq!(
        performers,
        vec![performer("30", "Cleo"), performer("10", "Ada"), performer("20", "Bea")]
    );
}

#[test]
fn tags_are_neither_sorted_nor_filtered_nor_merged() {
    let sent = || vec![tag("2", "b"), tag("1", "a"), tag("2", "b"), tag("", ""), tag("1", "z")];
    let reply = answered(200, Some(tags_data(sent())), None);
    assert_eq!(FindTagsQuery::read_reply(reply), Ok(sent()));
}

#[test]
fn markers_come_back_in_the_servers_order() {
    let sent = || vec![marker("9", "end"), marker("3", "start"), marker("9", "end")];
    let reply = answered(200, Some(markers_data(sent())), None);
    let markers: Vec<GqlMarker> = FindMarkersQuery::read_reply(reply).unwrap();
    assert_eq!(markers, sent());
}

#[test]
fn an_empty_collection_is_a_success() {
    assert_eq!(FindTagsQuery::read_reply(answered(200, Some(tags_data(vec![])), None)), Ok(vec![]));
    assert_eq!(
        FindMarkersQuery::read_reply(answered(200, Some(markers_data(vec![])), None)),
        Ok(vec![])
    );
    assert_eq!(
        FindPerformersQuery::read_reply(answered(200, Some(performers_data(vec![])), None)),
        Ok(vec![])
    );
}

#[test]
fn data_beside_errors_is_still_returned() {
    let reply = answered(200, Some(tags_data(vec![tag("1", "a")])), Some(vec!["partial failure"]));
    assert_eq!(FindTagsQuery::read_reply(reply), Ok(vec![tag("1", "a")]));
}

#[test]
fn missing_data_reports_the_servers_messages() {
    let reply: Reply<FindTagsData> =
        answered(200, None, Some(vec!["field findTags not found", "internal error"]));
    assert_eq!(
        FindTagsQuery::read_reply(reply),
        Err(ApiError::NoData {
            messages: vec!["field findTags not found".to_string(), "internal error".to_string()],
        })
    );

    let reply: Reply<FindMarkersData> = answered(200, None, Some(vec!["bad filter"]));
    assert_eq!(
        FindMarkersQuery::read_reply(reply),
        Err(ApiError::NoData { messages: vec!["bad filter".to_string()] })
    );

    let reply: Reply<FindPerformersData> = answered(200, None, Some(vec!["b", "a", "b"]));
    assert_eq!(
        FindPerformersQuery::read_reply(reply),
        Err(ApiError::NoData {
            messages: vec!["b".to_string(), "a".to_string(), "b".to_string()],
        })
    );
}

#[test]
fn missing_data_without_errors_reports_no_message() {
    let no_list: Reply<FindTagsData> = answered(200, None, None);
    assert_eq!(FindTagsQuery::read_reply(no_list), Err(ApiError::NoData { messages: vec![] }));
    let empty_list: Reply<FindTagsData> = answered(200, None, Some(vec![]));
    assert_eq!(FindTagsQuery::read_reply(empty_list), Err(ApiError::NoData { messages: vec![] }));
}

#[test]
fn an_undecodable_body_is_reported_with_its_reason() {
    let reply: Reply<FindTagsData> = Reply::Answered {
        status: 200,
        body: Body::Undecodable { reason: "expected value at line 1 column 1".to_string() },
    };
    assert_eq!(
        FindTagsQuery::read_reply(reply),
        Err(ApiError::Undecodable { reason: "expected value at line 1 column 1".to_string() })
    );
}

#[test]
fn no_response_is_a_transport_error_with_its_reason() {
    let reply: Reply<FindPerformersData> =
        Reply::Unanswered { reason: "connection refused".to_string() };
    assert_eq!(
        FindPerformersQuery::read_reply(reply),
        Err(ApiError::Transport { reason: "connection refused".to_string() })
    );
    let reply: Reply<FindMarkersData> = Reply::Unanswered { reason: String::new() };
    assert_eq!(
        FindMarkersQuery::read_reply(reply),
        Err(ApiError::Transport { reason: String::new() })
    );
}

#[test]
fn conclude_hands_out_the_data_whatever_its_type() {
    assert_eq!(answered(200, Some(7u32), None).conclude(), Ok(7u32));
    assert_eq!(answered(299, Some("x".to_string()), Some(vec!["e"])).conclude(), Ok("x".to_string()));
    assert_eq!(
        answered::<u32>(200, None, Some(vec!["e"])).conclude(),
        Err(ApiError::NoData { messages: vec!["e".to_string()] })
    );
    assert_eq!(
        answered(404, Some(7u32), None).conclude(),
        Err(ApiError::HttpStatus { status: 404 })
    );
    let unanswered: Reply<u32> = Reply::Unanswered { reason: "timed out".to_string() };
    assert_eq!(unanswered.conclude(), Err(ApiError::Transport { reason: "timed out".to_string() }));
}
