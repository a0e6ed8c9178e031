use note_service::db::NoteService;
use note_service::error::{ServiceError, StorageFault};
use note_service::ident::has_random_layout;
use note_service::types::{Note, NoteId, Tags};

fn id(bits: u128) -> NoteId {
    NoteId { bits }
}

fn filled(count: u128) -> NoteService {
    let mut service = NoteService::new();
    let mut n: u128 = 0;
    while n < count {
        let made = service.create_note_with(
            id(n + 1),
            1_000 + n as u64,
            format!("note {}", n + 1),
            format!("body {}", n + 1),
            vec![Tags::Linux],
        );
        assert_eq!(made, Ok(id(n + 1)));
        n += 1;
    }
    service
}

#[test]
fn create_then_get_by_id_returns_the_note() {
    let mut service = NoteService::new();
    let made = service.create_note_with(
        id(7),
        1_700_000_000,
        "Paging".to_string(),
        "# Paging\nnotes".to_string(),
        vec![Tags::Kernel, Tags::RiscV],
    );
    assert_eq!(made, Ok(id(7)));
    let found = service.find_note_by_id(id(7)).unwrap().unwrap();
    assert_eq!(
        found,
        Note {
            id: id(7),
            title: "Paging".to_string(),
            content: Some("# Paging\nnotes".to_string()),
            created_at: 1_700_000_000,
            updated_at: 1_700_000_000,
            tags: vec![Tags::Kernel, Tags::RiscV],
        }
    );
    assert_eq!(found.created_at, found.updated_at);
}

#[test]
fn create_draws_a_random_id_and_stamps_both_times_alike() {
    let mut service = NoteService::new();
    let first = service.create_note("a".to_string(), "x".to_string(), vec![]).unwrap();
    let second = service.create_note("a".to_string(), "y".to_string(), vec![Tags::Windows]).unwrap();
    assert_ne!(first, second);
    assert!(has_random_layout(first));
    assert!(has_random_layout(second));
    assert_eq!((first.bits >> 76) & 0xf, 4);
    assert_eq!((first.bits >> 62) & 0x3, 2);
    let note = service.find_note_by_id(second).unwrap().unwrap();
    assert_eq!(note.title, "a");
    assert_eq!(note.content, Some("y".to_string()));
    assert_eq!(note.tags, vec![Tags::Windows]);
    assert_eq!(note.created_at, note.updated_at);
    assert!(note.created_at > 1_600_000_000);
}

#[test]
fn duplicate_titles_are_legal() {
    let mut service = NoteService::new();
    assert_eq!(
        service.create_note_with(id(1), 5, "same".to_string(), "one".to_string(), vec![]),
        Ok(id(1))
    );
    assert_eq!(
        service.create_note_with(id(2), 6, "same".to_string(), "two".to_string(), vec![]),
        Ok(id(2))
    );
    assert_eq!(service.find_notes(None).unwrap().len(), 2);
}

#[test]
fn a_taken_id_is_refused_and_nothing_changes() {
    let mut service = filled(2);
    let again = service.create_note_with(id(2), 9, "other".to_string(), "text".to_string(), vec![]);
    assert_eq!(again, Err(ServiceError::StorageError(StorageFault::DuplicateId)));
    assert_eq!(service.find_notes(None).unwrap().len(), 2);
    assert_eq!(service.find_note_by_id(id(2)).unwrap().unwrap().title, "note 2");
}

#[test]
fn get_by_id_of_an_absent_note_is_none_not_an_error() {
    let service = filled(3);
    assert_eq!(service.find_note_by_id(id(99)), Ok(None));
}

#[test]
fn update_title_keeps_the_other_fields_and_advances_the_time() {
    let mut service = filled(3);
    let before = service.find_note_by_id(id(2)).unwrap().unwrap();
    assert_eq!(service.update_note_at(id(2), Some("x".to_string()), None, None, 5_000), Ok(()));
    let after = service.find_note_by_id(id(2)).unwrap().unwrap();
    assert_eq!(after.title, "x");
    assert_eq!(after.id, before.id);
    assert_eq!(after.content, before.content);
    assert_eq!(after.tags, before.tags);
    assert_eq!(after.created_at, before.created_at);
    assert_eq!(after.updated_at, 5_000);
    assert!(after.updated_at > before.updated_at);
    assert_eq!(service.find_note_by_id(id(1)).unwrap().unwrap().title, "note 1");
    assert_eq!(service.find_note_by_id(id(3)).unwrap().unwrap().updated_at, 1_002);
}

#[test]
fn update_replaces_exactly_the_supplied_fields() {
    let mut service = filled(1);
    assert_eq!(
        service.update_note_at(
            id(1),
            None,
            Some("".to_string()),
            Some(vec![Tags::Kernel, Tags::Kernel]),
            2_000
        ),
        Ok(())
    );
    let after = service.find_note_by_id(id(1)).unwrap().unwrap();
    assert_eq!(after.title, "note 1");
    assert_eq!(after.content, Some("".to_string()));
    assert_eq!(after.tags, vec![Tags::Kernel, Tags::Kernel]);
    assert_eq!(after.created_at, 1_000);
    assert_eq!(after.updated_at, 2_000);
}

#[test]
fn update_without_fields_still_refreshes_the_time() {
    let mut service = filled(1);
    assert_eq!(service.update_note_at(id(1), None, None, None, 1_001), Ok(()));
    let after = service.find_note_by_id(id(1)).unwrap().unwrap();
    assert_eq!(after.title, "note 1");
    assert_eq!(after.content, Some("body 1".to_string()));
    assert_eq!(after.updated_at, 1_001);
}

#[test]
fn update_never_dates_a_change_before_the_creation() {
    let mut service = filled(1);
    assert_eq!(service.update_note_at(id(1), None, None, None, 10), Ok(()));
    let after = service.find_note_by_id(id(1)).unwrap().unwrap();
    assert_eq!(after.created_at, 1_000);
    assert_eq!(after.updated_at, 1_000);
}

#[test]
fn update_of_an_absent_note_is_not_found() {
    let mut service = filled(2);
    assert_eq!(
        service.update_note_at(id(50), Some("x".to_string()), None, None, 3_000),
        Err(ServiceError::NotFound)
    );
    assert_eq!(service.update_note(id(50), None, None, None), Err(ServiceError::NotFound));
    assert_eq!(service.find_notes(None).unwrap().len(), 2);
}

#[test]
fn update_at_the_current_time_changes_the_note() {
    let mut service = filled(1);
    assert_eq!(service.update_note(id(1), Some("now".to_string()), None, None), Ok(()));
    let after = service.find_note_by_id(id(1)).unwrap().unwrap();
    assert_eq!(after.title, "now");
    assert_eq!(after.created_at, 1_000);
    assert!(after.updated_at > 1_600_000_000);
}

#[test]
fn delete_of_an_absent_note_is_not_found() {
    let mut service = filled(2);
    assert_eq!(service.delete_note(id(3)), Err(ServiceError::NotFound));
    assert_eq!(service.find_notes(None).unwrap().len(), 2);
    let mut empty = NoteService::new();
    assert_eq!(empty.delete_note(id(1)), Err(ServiceError::NotFound));
}

#[test]
fn delete_then_get_returns_absence() {
    let mut service = filled(3);
    assert_eq!(service.delete_note(id(2)), Ok(()));
    assert_eq!(service.find_note_by_id(id(2)), Ok(None));
    let left = service.find_notes(None).unwrap();
    assert_eq!(left.len(), 2);
    assert_eq!(left[0].id, id(1));
    assert_eq!(left[1].id, id(3));
    assert_eq!(service.delete_note(id(2)), Err(ServiceError::NotFound));
}

#[test]
fn page_zero_is_an_invalid_argument() {
    assert_eq!(NoteService::new().get_all_notes_by_page(0), Err(ServiceError::InvalidArgument));
    assert_eq!(filled(30).get_all_notes_by_page(0), Err(ServiceError::InvalidArgument));
}

#[test]
fn pages_hold_ten_previews_in_order_of_creation() {
    let service = filled(25);
    let first = service.get_all_notes_by_page(1).unwrap();
    let second = service.get_all_notes_by_page(2).unwrap();
    let third = service.get_all_notes_by_page(3).unwrap();
    let fourth = service.get_all_notes_by_page(4).unwrap();
    assert_eq!(first.len(), 10);
    assert_eq!(second.len(), 10);
    assert_eq!(third.len(), 5);
    assert_eq!(fourth.len(), 0);
    assert_eq!(first[0].id, id(1));
    assert_eq!(first[9].id, id(10));
    assert_eq!(second[0].id, id(11));
    assert_eq!(third[4].id, id(25));
    assert_eq!(third[4].title, "note 25");
    assert_eq!(third[4].created_at, 1_024);
    assert_eq!(third[4].updated_at, 1_024);
    assert_eq!(third[4].tags, vec![Tags::Linux]);
}

#[test]
fn a_page_far_beyond_the_end_is_empty() {
    let service = filled(12);
    assert_eq!(service.get_all_notes_by_page(usize::MAX).unwrap().len(), 0);
    assert_eq!(service.get_all_notes_by_page(3).unwrap().len(), 0);
    assert_eq!(service.get_all_notes_by_page(2).unwrap().len(), 2);
    assert_eq!(NoteService::new().get_all_notes_by_page(1).unwrap().len(), 0);
}

#[test]
fn find_by_tags_returns_the_tagged_notes() {
    let mut service = NoteService::new();
    for (n, title) in ["A", "B", "C"].iter().enumerate() {
        let made = service.create_note_with(
            id(n as u128 + 1),
            10,
            title.to_string(),
            "text".to_string(),
            vec![Tags::Kernel],
        );
        assert_eq!(made, Ok(id(n as u128 + 1)));
    }
    let kernel = service.find_notes(Some(vec![Tags::Kernel])).unwrap();
    assert_eq!(kernel.len(), 3);
    assert_eq!(kernel[0].title, "A");
    assert_eq!(kernel[1].title, "B");
    assert_eq!(kernel[2].title, "C");
    assert_eq!(service.find_notes(Some(vec![Tags::Linux])).unwrap(), vec![]);
}

#[test]
fn find_by_tags_selects_any_of_the_tags() {
    let mut service = NoteService::new();
    let _ = service.create_note_with(id(1), 1, "l".to_string(), "".to_string(), vec![Tags::Linux, Tags::RiscV]);
    let _ = service.create_note_with(id(2), 2, "w".to_string(), "".to_string(), vec![Tags::Windows]);
    let _ = service.create_note_with(id(3), 3, "k".to_string(), "".to_string(), vec![Tags::Kernel]);
    let _ = service.create_note_with(id(4), 4, "n".to_string(), "".to_string(), vec![]);
    let some = service.find_notes(Some(vec![Tags::Windows, Tags::RiscV])).unwrap();
    assert_eq!(some.len(), 2);
    assert_eq!(some[0].id, id(1));
    assert_eq!(some[1].id, id(2));
    assert_eq!(service.find_notes(Some(vec![])).unwrap().len(), 0);
}

#[test]
fn find_without_tags_returns_a_superset() {
    let mut service = NoteService::new();
    let _ = service.create_note_with(id(1), 1, "l".to_string(), "a".to_string(), vec![Tags::Linux]);
    let _ = service.create_note_with(id(2), 2, "w".to_string(), "b".to_string(), vec![Tags::Windows]);
    let _ = service.create_note_with(id(3), 3, "n".to_string(), "c".to_string(), vec![]);
    let all = service.find_notes(None).unwrap();
    assert_eq!(all.len(), 3);
    assert_eq!(all[2].tags, vec![]);
    for tags in [vec![Tags::Linux], vec![Tags::Windows, Tags::Kernel], vec![Tags::RiscV]] {
        let some = service.find_notes(Some(tags)).unwrap();
        assert!(some.len() <= all.len());
        for note in some.iter() {
            assert!(all.contains(note));
        }
    }
}

#[test]
fn get_by_title_finds_the_created_note() {
    let mut service = NoteService::new();
    let u = service.create_note("X".to_string(), "body".to_string(), vec![]).unwrap();
    let found = service.get_note_by_title("X".to_string()).unwrap().unwrap();
    assert_eq!(found.id, u);
    assert_eq!(found.content, Some("body".to_string()));
    assert_eq!(service.get_note_by_title("x".to_string()), Ok(None));
    assert_eq!(service.get_note_by_title("X ".to_string()), Ok(None));
}

#[test]
fn get_by_title_returns_the_first_of_several() {
    let mut service = NoteService::new();
    let _ = service.create_note_with(id(8), 1, "t".to_string(), "first".to_string(), vec![]);
    let _ = service.create_note_with(id(3), 2, "t".to_string(), "second".to_string(), vec![]);
    assert_eq!(service.get_note_by_title("t".to_string()).unwrap().unwrap().id, id(8));
}
