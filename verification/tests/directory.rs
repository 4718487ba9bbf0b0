use actix_navigation_service::error::{DirectoryError, Subject};
use actix_navigation_service::mongo_client::{DBClient, Step, StoreReply};
use actix_navigation_service::records::{ClassroomRecord, ImageRecord, ResolvedClassroom};
use actix_navigation_service::server::{classroom_list_reply, Server};

/// A record store in memory. `fail_at` makes the step with that number
/// (counted from 0) fail.
struct MemoryStore {
    images: Vec<ImageRecord>,
    classrooms: Vec<ClassroomRecord>,
    steps: Vec<&'static str>,
    fail_at: Option<usize>,
}

fn empty_store() -> MemoryStore {
    MemoryStore { images: Vec::new(), classrooms: Vec::new(), steps: Vec::new(), fail_at: None }
}

fn carry_out(store: &mut MemoryStore, client: &mut DBClient, first: Step) -> Result<(), DirectoryError> {
    let mut step = first;
    loop {
        let failing = store.fail_at == Some(store.steps.len());
        let reply = if failing { StoreReply::Failed } else { StoreReply::Succeeded };
        match step {
            Step::Probe => store.steps.push("probe"),
            Step::ReplaceImages(records) => {
                store.steps.push("images");
                if !failing {
                    store.images = records;
                }
            }
            Step::ReplaceClassrooms(records) => {
                store.steps.push("classrooms");
                if !failing {
                    store.classrooms = records;
                }
            }
            Step::Ready => return Ok(()),
            Step::Failed(error) => return Err(error),
        }
        step = client.advance(reply);
    }
}

fn connect(store: &mut MemoryStore, classroom_data: String, image_data: String) -> Result<DBClient, DirectoryError> {
    let mut client = DBClient::new(classroom_data, image_data);
    carry_out(store, &mut client, Step::Probe)?;
    Ok(client)
}

fn valid_classroom_data() -> String {
    concat_texts(&[
        r#"[{"classroom":"УК3 104","description":"Крутая аудитория","images":["UK3-left.png","UK3-right.png"]},"#,
        r#"{"classroom":"УК3 205","description":"Менее крутая аудитория","images":["UK3-left.png","UK3-right.png"]}]"#,
    ])
}

fn valid_image_data() -> String {
    concat_texts(&[
        r#"[{"image_name":"UK3-left.png","image":"bibabob"},"#,
        r#"{"image_name":"UK3-right.png","image":"pipupap"}]"#,
    ])
}

fn concat_texts(parts: &[&str]) -> String {
    let mut text = String::new();
    for part in parts {
        text.push_str(part);
    }
    text
}

fn classroom(name: &str, description: &str, image_refs: &[&str]) -> ClassroomRecord {
    ClassroomRecord {
        name: name.to_string(),
        description: description.to_string(),
        image_refs: image_refs.iter().map(|r| r.to_string()).collect(),
    }
}

fn image(name: &str, payload: &str) -> ImageRecord {
    ImageRecord { name: name.to_string(), payload: payload.to_string() }
}

#[test]
fn test_client_init_ok() {
    let mut store = empty_store();
    let client = connect(&mut store, valid_classroom_data(), valid_image_data());
    if let Err(e) = client {
        panic!("Client panicked: {:?}", e);
    }
}

#[test]
fn test_classroom_list() {
    let mut store = empty_store();
    let client_result = connect(&mut store, valid_classroom_data(), valid_image_data());
    let client = match client_result {
        Ok(val) => val,
        Err(e) => panic!("Client panicked, see test_client_init_ok: {:?}", e),
    };
    match client.get_classroom_list(Some(&store.classrooms)) {
        Err(e) => panic!("Error during classroom list extraction {:?}", e),
        Ok(list) => {
            let value = serde_json::to_string(&vec!["УК3 104", "УК3 205"]).unwrap();
            assert_eq!(value, list);
        }
    }
}

fn expected_classroom_json(name: &str) -> String {
    let mut members = serde_json::Map::new();
    members.insert("classroom".to_string(), serde_json::Value::String(name.to_string()));
    members.insert(
        "description".to_string(),
        serde_json::Value::String("Крутая аудитория".to_string()),
    );
    members.insert(
        "images".to_string(),
        serde_json::Value::Array(vec![
            serde_json::Value::String("bibabob".to_string()),
            serde_json::Value::String("pipupap".to_string()),
        ]),
    );
    serde_json::Value::Object(members).to_string()
}

#[test]
fn test_classroom_data_ok() {
    let mut store = empty_store();
    let client_result = connect(&mut store, valid_classroom_data(), valid_image_data());
    let client = match client_result {
        Ok(val) => val,
        Err(e) => panic!("Client panicked, see test_client_init_ok: {:?}", e),
    };
    match client.get_classroom_data(
        "УК3 104".to_string(),
        Some(&store.classrooms),
        Some(&store.images),
    ) {
        Err(e) => panic!("Error during classroom data extraction: {:?}", e),
        Ok(data) => {
            let value = expected_classroom_json("УК3 104");
            assert_eq!(value, data);
        }
    }
}

#[test]
#[should_panic]
fn test_classroom_data_bad() {
    let mut store = empty_store();
    let client_result = connect(&mut store, valid_classroom_data(), valid_image_data());
    let client = match client_result {
        Ok(val) => val,
        Err(e) => panic!("Client panicked, see test_client_init_ok: {:?}", e),
    };
    match client.get_classroom_data(
        "УК4 104".to_string(),
        Some(&store.classrooms),
        Some(&store.images),
    ) {
        Err(e) => panic!("Error during classroom data extraction: {:?}", e),
        Ok(data) => {
            let value = expected_classroom_json("УК4 104");
            assert_eq!(value, data);
        }
    }
}

#[test]
fn test_server_init() {
    let server = Server::builder()
        .host("localhost".to_owned())
        .port(8080)
        .classroom_data(valid_classroom_data())
        .image_data(valid_image_data())
        .build();
    let mut store = empty_store();
    connect(&mut store, server.classroom_data().clone(), server.image_data().clone()).unwrap();
}

#[test]
fn test_classroom_list_ok() {
    let server = Server::builder()
        .host("localhost".to_owned())
        .port(8080)
        .classroom_data(valid_classroom_data())
        .image_data(valid_image_data())
        .build();
    let mut store = empty_store();
    let client =
        connect(&mut store, server.classroom_data().clone(), server.image_data().clone()).unwrap();
    let res = classroom_list_reply(client.get_classroom_list(Some(&store.classrooms)));
    let awaited_body = serde_json::Value::Array(vec![
        serde_json::Value::String("УК3 104".to_string()),
        serde_json::Value::String("УК3 205".to_string()),
    ])
    .to_string();
    assert_eq!(res.status, 200);
    assert_eq!(res.body, awaited_body);
}

#[test]
fn reload_probes_then_replaces_images_then_classrooms() {
    let mut store = empty_store();
    let client = connect(&mut store, valid_classroom_data(), valid_image_data()).unwrap();
    assert!(client.is_ready());
    assert_eq!(store.steps, vec!["probe", "images", "classrooms"]);
    assert_eq!(
        store.images,
        vec![image("UK3-left.png", "bibabob"), image("UK3-right.png", "pipupap")]
    );
    assert_eq!(
        store.classrooms,
        vec![
            classroom("УК3 104", "Крутая аудитория", &["UK3-left.png", "UK3-right.png"]),
            classroom("УК3 205", "Менее крутая аудитория", &["UK3-left.png", "UK3-right.png"]),
        ]
    );
}

#[test]
fn first_step_of_a_reload_is_the_probe() {
    let mut client = DBClient::uninitialized();
    assert_eq!(client.initialize("[]".to_string(), "[]".to_string()), Step::Probe);
    assert!(!client.is_ready());
}

#[test]
fn list_has_exactly_the_names_of_the_payload() {
    let mut store = empty_store();
    let client = connect(&mut store, valid_classroom_data(), valid_image_data()).unwrap();
    // The store may hand its records back in any order.
    let mut returned = store.classrooms.clone();
    returned.reverse();
    let mut names = client.list_classrooms(Some(&returned)).unwrap();
    names.sort();
    assert_eq!(names, vec!["УК3 104".to_string(), "УК3 205".to_string()]);
}

#[test]
fn a_name_that_the_payload_has_twice_is_listed_twice() {
    let mut store = empty_store();
    let payload = r#"[{"classroom":"A","description":"first","images":[]},
                      {"classroom":"B","description":"","images":[]},
                      {"classroom":"A","description":"second","images":[]}]"#;
    let client = connect(&mut store, payload.to_string(), "[]".to_string()).unwrap();
    let names = client.list_classrooms(Some(&store.classrooms)).unwrap();
    assert_eq!(names, vec!["A".to_string(), "B".to_string(), "A".to_string()]);
    let found = client.get_classroom("A", Some(&store.classrooms), Some(&store.images)).unwrap();
    assert_eq!(found.description, "first");
}

#[test]
fn second_reload_of_the_same_payloads_changes_nothing() {
    let mut store = empty_store();
    let mut client = connect(&mut store, valid_classroom_data(), valid_image_data()).unwrap();
    let list_once = client.get_classroom_list(Some(&store.classrooms));
    let data_once = client.get_classroom_data(
        "УК3 205".to_string(),
        Some(&store.classrooms),
        Some(&store.images),
    );
    let missing_once =
        client.get_classroom_data("none".to_string(), Some(&store.classrooms), Some(&store.images));

    let first = client.initialize(valid_classroom_data(), valid_image_data());
    carry_out(&mut store, &mut client, first).unwrap();
    assert_eq!(client.get_classroom_list(Some(&store.classrooms)), list_once);
    assert_eq!(
        client.get_classroom_data(
            "УК3 205".to_string(),
            Some(&store.classrooms),
            Some(&store.images)
        ),
        data_once
    );
    assert_eq!(
        client.get_classroom_data("none".to_string(), Some(&store.classrooms), Some(&store.images)),
        missing_once
    );
    assert_eq!(store.classrooms.len(), 2);
    assert_eq!(store.images.len(), 2);
}

#[test]
fn reload_discards_what_the_stores_held() {
    let mut store = empty_store();
    let mut client = connect(&mut store, valid_classroom_data(), valid_image_data()).unwrap();
    let first = client.initialize(
        r#"[{"classroom":"R1","description":"d","images":["x"]}]"#.to_string(),
        r#"[{"image_name":"x","image":"enc"}]"#.to_string(),
    );
    carry_out(&mut store, &mut client, first).unwrap();
    assert_eq!(client.list_classrooms(Some(&store.classrooms)), Ok(vec!["R1".to_string()]));
    assert_eq!(store.images, vec![image("x", "enc")]);
}

#[test]
fn end_to_end_example() {
    let mut store = empty_store();
    let client = connect(
        &mut store,
        r#"[{"classroom":"R1","description":"d","images":["x"]}]"#.to_string(),
        r#"[{"image_name":"x","image":"enc"}]"#.to_string(),
    )
    .unwrap();
    assert_eq!(
        client.get_classroom("R1", Some(&store.classrooms), Some(&store.images)),
        Ok(ResolvedClassroom {
            name: "R1".to_string(),
            description: "d".to_string(),
            images: vec!["enc".to_string()],
        })
    );
    assert_eq!(
        client.get_classroom_data("R1".to_string(), Some(&store.classrooms), Some(&store.images)),
        Ok(r#"{"classroom":"R1","description":"d","images":["enc"]}"#.to_string())
    );
    assert_eq!(
        client.get_classroom_list(Some(&store.classrooms)),
        Ok(r#"["R1"]"#.to_string())
    );
}

#[test]
fn empty_payloads_give_an_empty_directory() {
    let mut store = empty_store();
    let client = connect(&mut store, "[]".to_string(), "[]".to_string()).unwrap();
    assert_eq!(client.list_classrooms(Some(&store.classrooms)), Ok(Vec::new()));
    assert_eq!(client.get_classroom_list(Some(&store.classrooms)), Ok("[]".to_string()));
}

#[test]
fn unreachable_store_is_a_connectivity_error_and_nothing_is_written() {
    let mut store = empty_store();
    store.fail_at = Some(0);
    let mut client = DBClient::new(valid_classroom_data(), valid_image_data());
    assert_eq!(
        carry_out(&mut store, &mut client, Step::Probe),
        Err(DirectoryError::Connectivity)
    );
    assert_eq!(store.steps, vec!["probe"]);
    assert!(!client.is_ready());
}

#[test]
fn unreachable_store_comes_before_a_malformed_payload() {
    let mut client = DBClient::new("not json".to_string(), "[]".to_string());
    assert_eq!(client.advance(StoreReply::Failed), Step::Failed(DirectoryError::Connectivity));
}

#[test]
fn malformed_classroom_payload_is_a_parse_error() {
    for payload in [
        "",
        "not json",
        "[",
        r#"{"classroom":"A","description":"d","images":[]}"#,
        r#"["A"]"#,
        r#"[{"classroom":"A","description":"d","images":[]}] tail"#,
    ] {
        let mut store = empty_store();
        let result = connect(&mut store, payload.to_string(), valid_image_data());
        assert_eq!(result.err(), Some(DirectoryError::Parse), "payload {:?}", payload);
        assert_eq!(store.steps, vec!["probe"], "payload {:?}", payload);
    }
}

#[test]
fn record_without_a_required_field_is_a_parse_error() {
    for payload in [
        r#"[{"description":"d","images":[]}]"#,
        r#"[{"classroom":"A","images":[]}]"#,
        r#"[{"classroom":"A","description":"d"}]"#,
        r#"[{"classroom":1,"description":"d","images":[]}]"#,
        r#"[{"classroom":"A","description":null,"images":[]}]"#,
        r#"[{"classroom":"A","description":"d","images":"x"}]"#,
        r#"[{"classroom":"A","description":"d","images":["x",2]}]"#,
    ] {
        let mut store = empty_store();
        let result = connect(&mut store, payload.to_string(), "[]".to_string());
        assert_eq!(result.err(), Some(DirectoryError::Parse), "payload {:?}", payload);
    }
    for payload in [
        r#"[{"image":"p"}]"#,
        r#"[{"image_name":"i"}]"#,
        r#"[{"image_name":"i","image":7}]"#,
        r#"{"image_name":"i","image":"p"}"#,
    ] {
        let mut store = empty_store();
        let result = connect(&mut store, "[]".to_string(), payload.to_string());
        assert_eq!(result.err(), Some(DirectoryError::Parse), "payload {:?}", payload);
        assert_eq!(store.steps, vec!["probe"], "payload {:?}", payload);
    }
}

#[test]
fn members_that_a_record_does_not_need_are_ignored() {
    let mut store = empty_store();
    connect(
        &mut store,
        r#"[{"floor":3,"classroom":"A","description":"d","images":[],"tags":{"a":[1,2.5,true,null]}}]"#
            .to_string(),
        r#"[{"image_name":"i","image":"p","size":12}]"#.to_string(),
    )
    .unwrap();
    assert_eq!(store.classrooms, vec![classroom("A", "d", &[])]);
    assert_eq!(store.images, vec![image("i", "p")]);
}

#[test]
fn image_with_an_empty_key_is_refused_before_any_write() {
    let mut store = empty_store();
    let result = connect(
        &mut store,
        valid_classroom_data(),
        r#"[{"image_name":"i","image":"p"},{"image_name":"","image":"q"}]"#.to_string(),
    );
    assert_eq!(result.err(), Some(DirectoryError::Persistence));
    assert_eq!(store.steps, vec!["probe"]);
}

#[test]
fn classroom_with_an_empty_key_is_refused_after_the_images_were_replaced() {
    let mut store = empty_store();
    store.classrooms = vec![classroom("old", "", &[])];
    let result = connect(
        &mut store,
        r#"[{"classroom":"","description":"d","images":[]}]"#.to_string(),
        valid_image_data(),
    );
    assert_eq!(result.err(), Some(DirectoryError::Persistence));
    assert_eq!(store.steps, vec!["probe", "images"]);
    assert_eq!(store.images.len(), 2);
    assert_eq!(store.classrooms, vec![classroom("old", "", &[])]);
}

#[test]
fn failed_write_is_a_persistence_error() {
    for failing in [1, 2] {
        let mut store = empty_store();
        store.fail_at = Some(failing);
        let mut client = DBClient::new(valid_classroom_data(), valid_image_data());
        assert_eq!(
            carry_out(&mut store, &mut client, Step::Probe),
            Err(DirectoryError::Persistence)
        );
        assert!(!client.is_ready());
        assert_eq!(store.steps.len(), failing + 1);
    }
}

#[test]
fn reads_before_the_first_load_are_refused() {
    let client = DBClient::uninitialized();
    let classrooms = vec![classroom("A", "d", &[])];
    let images = vec![image("i", "p")];
    assert_eq!(client.list_classrooms(Some(&classrooms)), Err(DirectoryError::NotInitialized));
    assert_eq!(client.get_classroom_list(Some(&classrooms)), Err(DirectoryError::NotInitialized));
    assert_eq!(
        client.find_classroom("A", Some(&classrooms)),
        Err(DirectoryError::NotInitialized)
    );
    assert_eq!(
        client.get_classroom("A", Some(&classrooms), Some(&images)),
        Err(DirectoryError::NotInitialized)
    );
    assert_eq!(
        client.get_classroom_data("A".to_string(), Some(&classrooms), Some(&images)),
        Err(DirectoryError::NotInitialized)
    );
}

#[test]
fn reads_during_a_reload_are_refused() {
    let mut store = empty_store();
    let mut client = connect(&mut store, valid_classroom_data(), valid_image_data()).unwrap();
    let step = client.initialize(valid_classroom_data(), valid_image_data());
    assert_eq!(step, Step::Probe);
    assert_eq!(
        client.list_classrooms(Some(&store.classrooms)),
        Err(DirectoryError::NotInitialized)
    );
    let step = client.advance(StoreReply::Succeeded);
    assert!(matches!(step, Step::ReplaceImages(_)));
    assert_eq!(
        client.get_classroom("УК3 104", Some(&store.classrooms), Some(&store.images)),
        Err(DirectoryError::NotInitialized)
    );
    let step = client.advance(StoreReply::Succeeded);
    assert!(matches!(step, Step::ReplaceClassrooms(_)));
    assert!(!client.is_ready());
    assert_eq!(client.advance(StoreReply::Succeeded), Step::Ready);
    assert!(client.is_ready());
}

#[test]
fn failed_reload_of_a_ready_directory_leaves_it_ready() {
    let mut store = empty_store();
    let mut client = connect(&mut store, valid_classroom_data(), valid_image_data()).unwrap();
    let first = client.initialize("broken".to_string(), valid_image_data());
    assert_eq!(carry_out(&mut store, &mut client, first), Err(DirectoryError::Parse));
    assert!(client.is_ready());
    assert_eq!(
        client.list_classrooms(Some(&store.classrooms)),
        Ok(vec!["УК3 104".to_string(), "УК3 205".to_string()])
    );
}

#[test]
fn failed_first_load_leaves_the_directory_uninitialized() {
    let mut store = empty_store();
    let mut client = DBClient::new("broken".to_string(), valid_image_data());
    assert_eq!(carry_out(&mut store, &mut client, Step::Probe), Err(DirectoryError::Parse));
    assert!(!client.is_ready());
    assert_eq!(client.list_classrooms(Some(&store.classrooms)), Err(DirectoryError::NotInitialized));
}

#[test]
fn new_reload_gives_up_the_one_under_way() {
    let mut store = empty_store();
    let mut client = connect(&mut store, valid_classroom_data(), valid_image_data()).unwrap();
    assert_eq!(client.initialize("[]".to_string(), "[]".to_string()), Step::Probe);
    assert_eq!(client.advance(StoreReply::Succeeded), Step::ReplaceImages(Vec::new()));
    // A second reload begins before the first has finished.
    let first = client.initialize(
        r#"[{"classroom":"R1","description":"d","images":["x"]}]"#.to_string(),
        r#"[{"image_name":"x","image":"enc"}]"#.to_string(),
    );
    assert_eq!(first, Step::Probe);
    assert_eq!(
        client.advance(StoreReply::Succeeded),
        Step::ReplaceImages(vec![image("x", "enc")])
    );
    assert_eq!(
        client.advance(StoreReply::Succeeded),
        Step::ReplaceClassrooms(vec![classroom("R1", "d", &["x"])])
    );
    // It fails at its last step: the directory was ready before both and is so again.
    assert_eq!(client.advance(StoreReply::Failed), Step::Failed(DirectoryError::Persistence));
    assert!(client.is_ready());
}

#[test]
fn reply_with_nothing_under_way_changes_nothing() {
    let mut client = DBClient::uninitialized();
    assert_eq!(
        client.advance(StoreReply::Succeeded),
        Step::Failed(DirectoryError::NotInitialized)
    );
    assert!(!client.is_ready());
    let mut store = empty_store();
    let mut client = connect(&mut store, "[]".to_string(), "[]".to_string()).unwrap();
    assert_eq!(client.advance(StoreReply::Failed), Step::Ready);
    assert!(client.is_ready());
}

#[test]
fn failed_read_is_a_persistence_error() {
    let mut store = empty_store();
    let client = connect(&mut store, valid_classroom_data(), valid_image_data()).unwrap();
    assert_eq!(client.list_classrooms(None), Err(DirectoryError::Persistence));
    assert_eq!(client.get_classroom_list(None), Err(DirectoryError::Persistence));
    assert_eq!(client.find_classroom("УК3 104", None), Err(DirectoryError::Persistence));
    assert_eq!(
        client.get_classroom("УК3 104", None, Some(&store.images)),
        Err(DirectoryError::Persistence)
    );
    assert_eq!(
        client.get_classroom("УК3 104", Some(&store.classrooms), None),
        Err(DirectoryError::Persistence)
    );
}

#[test]
fn unknown_classroom_is_not_found_whatever_the_stores_hold() {
    let mut store = empty_store();
    let client = connect(&mut store, valid_classroom_data(), valid_image_data()).unwrap();
    let not_found = Err(DirectoryError::NotFound(Subject::Classroom));
    assert_eq!(
        client.get_classroom("nonexistent", Some(&store.classrooms), Some(&store.images)),
        not_found
    );
    assert_eq!(
        client.get_classroom("nonexistent", Some(&store.classrooms), Some(&Vec::new())),
        not_found
    );
    assert_eq!(client.get_classroom("nonexistent", Some(&Vec::new()), Some(&store.images)), not_found);
    // The image store is not consulted for a classroom that does not exist.
    assert_eq!(client.get_classroom("nonexistent", Some(&store.classrooms), None), not_found);
    // Names are compared exactly.
    assert_eq!(
        client.get_classroom("ук3 104", Some(&store.classrooms), Some(&store.images)),
        not_found
    );
    assert_eq!(
        client.find_classroom("УК3 104 ", Some(&store.classrooms)),
        Err(DirectoryError::NotFound(Subject::Classroom))
    );
}

#[test]
fn find_classroom_returns_the_stored_record() {
    let mut store = empty_store();
    let client = connect(&mut store, valid_classroom_data(), valid_image_data()).unwrap();
    assert_eq!(
        client.find_classroom("УК3 205", Some(&store.classrooms)),
        Ok(classroom("УК3 205", "Менее крутая аудитория", &["UK3-left.png", "UK3-right.png"]))
    );
}
