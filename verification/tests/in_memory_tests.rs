use showerrooms::errors::{RepositoryError, TransitionError};
use showerrooms::in_memory::InMemorySectionRepository;
use showerrooms::models::{CreateSection, SectionInfo, UpdateSection};
use showerrooms::traits::SectionRepository;

#[test]
fn in_memory_test_section_repository() {
    let mut repo = InMemorySectionRepository::new();

    let create_section = CreateSection { total: 10 };
    let section_info = SectionInfo {
        gender: "male".to_string(),
        building: "A".to_string(),
        floor: 1,
    };
    let created_section = repo
        .create(create_section, section_info)
        .expect("failed to create section");
    assert_eq!(created_section.id, 1);
    assert_eq!(created_section.total, 10);

    let section = repo.find_by_id(1).unwrap();
    assert_eq!(section.id, 1);
    assert_eq!(section.total, 10);

    let sections = repo.find_all().unwrap();
    assert_eq!(sections.len(), 1);
    assert_eq!(sections[0].id, 1);
    assert_eq!(sections[0].total, 10);

    let update_section = UpdateSection {
        id: 1,
        current_status: "available".to_string(),
        next_status: "occupied".to_string(),
    };
    let updated_section = repo.update(update_section).unwrap();
    assert_eq!(updated_section.available, 9);
    assert_eq!(updated_section.occupied, 1);

    let update_section = UpdateSection {
        id: 1,
        current_status: "occupied".to_string(),
        next_status: "available".to_string(),
    };
    let updated_section = repo.update(update_section).unwrap();
    assert_eq!(updated_section.available, 10);
    assert_eq!(updated_section.occupied, 0);

    let res = repo.delete(1);
    assert!(res.is_ok());
}

fn create_populated_repository() -> InMemorySectionRepository {
    let mut repository = InMemorySectionRepository::new();
    let genders = vec!["male", "female"];
    let buildings = vec!["A", "B", "C"];
    let floors = vec![1, 2, 3, 4];

    for gender in genders {
        for building in &buildings {
            for &floor in &floors {
                let section_info = SectionInfo {
                    gender: gender.to_string(),
                    building: building.to_string(),
                    floor,
                };
                let create_section = CreateSection { total: 5 };
                repository.create(create_section, section_info).unwrap();
            }
        }
    }

    repository
}

#[test]
fn find_by_gender_returns_every_match() {
    let repo = create_populated_repository();
    let sections = repo.find_by_gender("female".to_string()).unwrap();
    assert_eq!(sections.len(), 12); // 3 buildings * 4 floors
    assert!(sections.iter().all(|sec| sec.gender == "female"));
}

#[test]
fn find_by_building_returns_every_match() {
    let repo = create_populated_repository();
    let sections = repo
        .find_by_building("female".to_string(), "C".to_string())
        .unwrap();
    assert_eq!(sections.len(), 4); // 1 building * 4 floors
    assert!(sections.iter().all(|sec| sec.gender == "female" && sec.building == "C"));
}

#[test]
fn find_by_floor_returns_the_section() {
    let repo = create_populated_repository();
    let result = repo
        .find_by_floor("female".to_string(), "C".to_string(), 1)
        .unwrap();
    let body = &result[0];
    assert_eq!(body.gender, "female");
    assert_eq!(body.building, "C");
    assert_eq!(body.floor, 1);
    assert_eq!(body.total, 5);
    assert_eq!(body.available, 5);
}

#[test]
fn empty_gender_lookup_is_not_found() {
    let repo = create_populated_repository();
    let err = repo.find_by_gender("invalidgender".to_string()).unwrap_err();
    assert_eq!(err, RepositoryError::NoSectionForGender);

    let empty = InMemorySectionRepository::new();
    let err = empty.find_by_gender("female".to_string()).unwrap_err();
    assert_eq!(err, RepositoryError::NoSectionForGender);
}

#[test]
fn empty_building_and_floor_lookups_are_not_found() {
    let repo = create_populated_repository();
    let err = repo
        .find_by_building("female".to_string(), "invalidbuilding".to_string())
        .unwrap_err();
    assert_eq!(err, RepositoryError::NoSectionForBuilding);
    let err = repo
        .find_by_floor("female".to_string(), "C".to_string(), 5)
        .unwrap_err();
    assert_eq!(err, RepositoryError::NoSectionForBuilding);
}

#[test]
fn update_moves_one_room() {
    let mut repo = create_populated_repository();
    let id = repo
        .find_by_floor("male".to_string(), "A".to_string(), 1)
        .unwrap()[0]
        .id;
    let body = repo
        .update(UpdateSection {
            id,
            current_status: "available".to_string(),
            next_status: "occupied".to_string(),
        })
        .unwrap();
    assert_eq!(body.gender, "male");
    assert_eq!(body.building, "A");
    assert_eq!(body.floor, 1);
    assert_eq!(body.total, 5);
    assert_eq!(body.available, 4);
    assert_eq!(body.occupied, 1);
}

#[test]
fn update_of_missing_id_is_not_found() {
    let mut repo = InMemorySectionRepository::new();
    let err = repo
        .update(UpdateSection {
            id: 42,
            current_status: "available".to_string(),
            next_status: "occupied".to_string(),
        })
        .unwrap_err();
    assert_eq!(err, RepositoryError::NotFound(42));
    let err = repo.find_by_id(42).unwrap_err();
    assert_eq!(err, RepositoryError::NotFound(42));
    let err = repo.delete(42).unwrap_err();
    assert_eq!(err, RepositoryError::NotFound(42));
}

#[test]
fn rejected_update_leaves_the_store_unchanged() {
    let mut repo = InMemorySectionRepository::new();
    let created = repo
        .create(
            CreateSection { total: 3 },
            SectionInfo {
                gender: "male".to_string(),
                building: "A".to_string(),
                floor: 1,
            },
        )
        .unwrap();
    let err = repo
        .update(UpdateSection {
            id: created.id,
            current_status: "occupied".to_string(),
            next_status: "available".to_string(),
        })
        .unwrap_err();
    assert_eq!(
        err,
        RepositoryError::Transition(TransitionError::NoOccupied)
    );
    let err = repo
        .update(UpdateSection {
            id: created.id,
            current_status: "available".to_string(),
            next_status: "available".to_string(),
        })
        .unwrap_err();
    assert_eq!(
        err,
        RepositoryError::Transition(TransitionError::InvalidStatus)
    );
    let section = repo.find_by_id(created.id).unwrap();
    assert_eq!(section.available, 3);
    assert_eq!(section.occupied, 0);
    assert_eq!(section.disabled_rooms, 0);
}

#[test]
fn monotonic_ids_survive_deletion() {
    let mut repo = InMemorySectionRepository::new();
    let info = |floor: i32| SectionInfo {
        gender: "male".to_string(),
        building: "A".to_string(),
        floor,
    };
    let first = repo.create(CreateSection { total: 1 }, info(1)).unwrap();
    let second = repo.create(CreateSection { total: 1 }, info(2)).unwrap();
    assert_eq!(first.id, 1);
    assert_eq!(second.id, 2);
    repo.delete(first.id).unwrap();
    let third = repo.create(CreateSection { total: 1 }, info(3)).unwrap();
    assert_eq!(third.id, 3); // the freed id 1 is never handed out again
    let sections = repo.find_all().unwrap();
    assert_eq!(sections.len(), 2);
    assert_eq!(sections[0].id, 2);
    assert_eq!(sections[1].id, 3);
}

#[test]
fn scenario_five_rooms_from_creation_to_exhaustion() {
    let mut repo = InMemorySectionRepository::new();
    let created = repo
        .create(
            CreateSection { total: 5 },
            SectionInfo {
                gender: "female".to_string(),
                building: "B".to_string(),
                floor: 2,
            },
        )
        .unwrap();
    assert_eq!(created.available, 5);
    assert_eq!(created.occupied, 0);
    assert_eq!(created.disabled_rooms, 0);

    let occupy = || UpdateSection {
        id: created.id,
        current_status: "available".to_string(),
        next_status: "occupied".to_string(),
    };
    for _ in 0..4 {
        repo.update(occupy()).unwrap();
    }
    let section = repo.find_by_id(created.id).unwrap();
    assert_eq!(section.available, 1);
    assert_eq!(section.occupied, 4);
    assert_eq!(section.disabled_rooms, 0);

    let body = repo
        .update(UpdateSection {
            id: created.id,
            current_status: "occupied".to_string(),
            next_status: "disabled".to_string(),
        })
        .unwrap();
    assert_eq!(body.available, 1);
    assert_eq!(body.occupied, 3);
    assert_eq!(body.disabled_rooms, 1);

    // drain the last available room, then the source is exhausted
    repo.update(occupy()).unwrap();
    let err = repo.update(occupy()).unwrap_err();
    assert_eq!(err, RepositoryError::Transition(TransitionError::NoAvailable));
    let section = repo.find_by_id(created.id).unwrap();
    assert_eq!(section.available, 0);
    assert_eq!(section.occupied, 4);
    assert_eq!(section.disabled_rooms, 1);
    assert_eq!(section.total, 5);
}
