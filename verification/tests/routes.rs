use mongodb::bson::Uuid;
use note_service::db::NoteService;
use note_service::error::{ServiceError, StorageFault};
use note_service::ident::{id_from_parse, parse_note_id};
use note_service::routes::notes::{
    create_note, created_reply, delete_note, deleted_reply, failure_reply, find_note, get_note,
    note_reply, page_from_query, page_reply, parse_number, CreateNoteRequest, Reply, ReplyBody,
};
use note_service::types::{Note, NoteId, Tags};

fn id(bits: u128) -> NoteId {
    NoteId { bits }
}

#[test]
fn numbers_are_decimal_digits_after_an_optional_plus() {
    assert_eq!(parse_number("0"), Some(0));
    assert_eq!(parse_number("7"), Some(7));
    assert_eq!(parse_number("42"), Some(42));
    assert_eq!(parse_number("007"), Some(7));
    assert_eq!(parse_number("+15"), Some(15));
    assert_eq!(parse_number("1234567890"), Some(1_234_567_890));
    assert_eq!(parse_number(""), None);
    assert_eq!(parse_number("+"), None);
    assert_eq!(parse_number("++1"), None);
    assert_eq!(parse_number("-1"), None);
    assert_eq!(parse_number(" 1"), None);
    assert_eq!(parse_number("1 "), None);
    assert_eq!(parse_number("1a"), None);
    assert_eq!(parse_number("a1"), None);
    assert_eq!(parse_number("1.0"), None);
    assert_eq!(parse_number("١٢"), None);
}

#[test]
fn numbers_agree_with_the_standard_parser() {
    let max = usize::MAX.to_string();
    assert_eq!(parse_number(&max), Some(usize::MAX));
    let mut beyond = max.clone();
    beyond.push('0');
    assert_eq!(parse_number(&beyond), None);
    assert_eq!(parse_number("340282366920938463463374607431768211456"), None);
    for text in ["", "+", "0", "+0", "10", "99999", "1e3", "0x10", "+ 1", "12+", &max, &beyond] {
        assert_eq!(parse_number(text), text.parse::<usize>().ok());
    }
}

#[test]
fn the_page_defaults_to_the_first() {
    assert_eq!(page_from_query(None), Ok(1));
    assert_eq!(page_from_query(Some("1")), Ok(1));
    assert_eq!(page_from_query(Some("3")), Ok(3));
    assert_eq!(page_from_query(Some("+12")), Ok(12));
    assert_eq!(page_from_query(Some("0")), Err(ServiceError::InvalidArgument));
    assert_eq!(page_from_query(Some("-2")), Err(ServiceError::InvalidArgument));
    assert_eq!(page_from_query(Some("two")), Err(ServiceError::InvalidArgument));
    assert_eq!(page_from_query(Some("")), Err(ServiceError::InvalidArgument));
}

#[test]
fn ids_are_read_from_their_text() {
    assert_eq!(
        parse_note_id("550e8400-e29b-41d4-a716-446655440000"),
        Ok(id(0x550e8400_e29b_41d4_a716_446655440000))
    );
    assert_eq!(
        parse_note_id("550e8400e29b41d4a716446655440000"),
        Ok(id(0x550e8400_e29b_41d4_a716_446655440000))
    );
    assert_eq!(parse_note_id("00000000-0000-0000-0000-000000000001"), Ok(id(1)));
    assert_eq!(parse_note_id(""), Err(ServiceError::InvalidArgument));
    assert_eq!(parse_note_id("not-an-id"), Err(ServiceError::InvalidArgument));
    assert_eq!(
        parse_note_id("550e8400-e29b-41d4-a716-44665544000"),
        Err(ServiceError::InvalidArgument)
    );
    assert_eq!(
        parse_note_id("550e8400-e29b-41d4-a716-44665544000g"),
        Err(ServiceError::InvalidArgument)
    );
}

#[test]
fn ids_agree_with_the_uuid_they_stand_for() {
    let uuid = Uuid::new();
    let parsed = parse_note_id(&uuid.to_string()).unwrap();
    assert_eq!(parsed.bits.to_be_bytes(), uuid.bytes());
    assert_eq!(Uuid::from_bytes(parsed.bits.to_be_bytes()), uuid);
}

#[test]
fn a_malformed_id_is_an_invalid_argument() {
    let failed = Uuid::parse_str("zz").unwrap_err();
    assert_eq!(id_from_parse(Err(failed)), Err(ServiceError::InvalidArgument));
    assert_eq!(id_from_parse(Ok(id(12))), Ok(id(12)));
}

#[test]
fn replies_carry_the_outcome_and_its_status() {
    assert_eq!(
        failure_reply(ServiceError::NotFound),
        Reply { status: 404, body: ReplyBody::Failure(ServiceError::NotFound) }
    );
    assert_eq!(created_reply(Ok(id(3))), Reply { status: 201, body: ReplyBody::Created(id(3)) });
    assert_eq!(
        created_reply(Err(ServiceError::StorageError(StorageFault::Backend))),
        Reply {
            status: 500,
            body: ReplyBody::Failure(ServiceError::StorageError(StorageFault::Backend))
        }
    );
    assert_eq!(page_reply(Ok(vec![])), Reply { status: 200, body: ReplyBody::Page(vec![]) });
    assert_eq!(
        page_reply(Err(ServiceError::InvalidArgument)),
        Reply { status: 400, body: ReplyBody::Failure(ServiceError::InvalidArgument) }
    );
    let note = Note::new(id(1), "t".to_string(), "c".to_string(), vec![Tags::Linux], 9);
    assert_eq!(
        note_reply(Ok(Some(note.clone()))),
        Reply { status: 200, body: ReplyBody::Found(note) }
    );
    assert_eq!(
        note_reply(Ok(None)),
        Reply { status: 404, body: ReplyBody::Failure(ServiceError::NotFound) }
    );
    assert_eq!(
        note_reply(Err(ServiceError::StorageError(StorageFault::Backend))).status,
        500
    );
    assert_eq!(deleted_reply(id(5), Ok(())), Reply { status: 200, body: ReplyBody::Deleted(id(5)) });
    assert_eq!(
        deleted_reply(id(5), Err(ServiceError::StorageError(StorageFault::LostDeleteRace))),
        Reply {
            status: 500,
            body: ReplyBody::Failure(ServiceError::StorageError(StorageFault::LostDeleteRace))
        }
    );
}

#[test]
fn the_handlers_serve_a_note_from_creation_to_deletion() {
    let mut service = NoteService::new();
    let request = CreateNoteRequest {
        title: "Scheduler".to_string(),
        content: "round robin".to_string(),
        tags: vec![Tags::Kernel],
    };
    let reply = create_note(&mut service, request);
    assert_eq!(reply.status, 201);
    let made = match reply.body {
        ReplyBody::Created(made) => made,
        other => panic!("unexpected reply {:?}", other),
    };

    let reply = get_note(&service, "Scheduler".to_string());
    assert_eq!(reply.status, 200);
    match reply.body {
        ReplyBody::Found(note) => {
            assert_eq!(note.id, made);
            assert_eq!(note.content, Some("round robin".to_string()));
        }
        other => panic!("unexpected reply {:?}", other),
    }
    assert_eq!(
        get_note(&service, "Other".to_string()),
        Reply { status: 404, body: ReplyBody::Failure(ServiceError::NotFound) }
    );

    let reply = find_note(&service, None);
    assert_eq!(reply.status, 200);
    match reply.body {
        ReplyBody::Page(list) => {
            assert_eq!(list.len(), 1);
            assert_eq!(list[0].id, made);
            assert_eq!(list[0].title, "Scheduler");
        }
        other => panic!("unexpected reply {:?}", other),
    }
    assert_eq!(find_note(&service, Some("2")), Reply { status: 200, body: ReplyBody::Page(vec![]) });
    assert_eq!(
        find_note(&service, Some("0")),
        Reply { status: 400, body: ReplyBody::Failure(ServiceError::InvalidArgument) }
    );
    assert_eq!(
        find_note(&service, Some("x")),
        Reply { status: 400, body: ReplyBody::Failure(ServiceError::InvalidArgument) }
    );

    assert_eq!(
        delete_note(&mut service, "nonsense"),
        Reply { status: 400, body: ReplyBody::Failure(ServiceError::InvalidArgument) }
    );
    assert_eq!(
        delete_note(&mut service, "00000000-0000-0000-0000-000000000000"),
        Reply { status: 404, body: ReplyBody::Failure(ServiceError::NotFound) }
    );
    let text = Uuid::from_bytes(made.bits.to_be_bytes()).to_string();
    assert_eq!(
        delete_note(&mut service, &text),
        Reply { status: 200, body: ReplyBody::Deleted(made) }
    );
    assert_eq!(service.find_note_by_id(made), Ok(None));
    assert_eq!(
        delete_note(&mut service, &text),
        Reply { status: 404, body: ReplyBody::Failure(ServiceError::NotFound) }
    );
}
