use showerrooms::errors::TransitionError;
use showerrooms::section::{
    CreateSection, InMemorySectionRepository, RepositoryError, SectionInfo, SectionRepository,
    UpdateSection,
};

#[test]
fn section_test_section_repository() {
    let mut repo = InMemorySectionRepository::new();

    let create_section = CreateSection { total: 10 };
    let section_info = SectionInfo {
        gender: "male".to_string(),
        building: "A".to_string(),
        floor: 1,
    };
    let created_section = repo.create(create_section, section_info);
    assert_eq!(created_section.id, 1);
    assert_eq!(created_section.total, 10);

    let section = repo.find_by_id(1).unwrap();
    assert_eq!(section.id, 1);
    assert_eq!(section.total, 10);

    let sections = repo.find_all();
    assert_eq!(sections.len(), 1);
    assert_eq!(sections[0].id, 1);
    assert_eq!(sections[0].total, 10);

    // status = "available" on a fresh section: no room is occupied, so the
    // step is refused and the counters stay where they were
    let update_section = UpdateSection {
        id: 1,
        status: "available".to_string(),
    };
    let err = repo.update(1, update_section).unwrap_err();
    assert_eq!(err, RepositoryError::Transition(TransitionError::NoOccupied));
    let section = repo.find_by_id(1).unwrap();
    assert_eq!(section.available, 10);
    assert_eq!(section.occupied, 0);

    // status = "occupied": one available room becomes occupied
    let update_section = UpdateSection {
        id: 1,
        status: "occupied".to_string(),
    };
    let updated_section = repo.update(1, update_section).unwrap();
    assert_eq!(updated_section.available, 9);
    assert_eq!(updated_section.occupied, 1);

    // status = "available": the occupied room is released again
    let update_section = UpdateSection {
        id: 1,
        status: "available".to_string(),
    };
    let updated_section = repo.update(1, update_section).unwrap();
    assert_eq!(updated_section.available, 10);
    assert_eq!(updated_section.occupied, 0);

    repo.delete(1).unwrap();
    let section = repo.find_by_id(1);
    assert!(section.is_none());
}

#[test]
fn unknown_status_is_rejected_unchanged() {
    let mut repo = InMemorySectionRepository::new();
    repo.create(
        CreateSection { total: 4 },
        SectionInfo {
            gender: "female".to_string(),
            building: "B".to_string(),
            floor: 2,
        },
    );
    let err = repo
        .update(
            1,
            UpdateSection {
                id: 1,
                status: "vacant".to_string(),
            },
        )
        .unwrap_err();
    assert_eq!(
        err,
        RepositoryError::Transition(TransitionError::InvalidStatus)
    );
    let section = repo.find_by_id(1).unwrap();
    assert_eq!(section.available, 4);
    assert_eq!(section.occupied, 0);
    assert_eq!(section.disabled, 0);
}

#[test]
fn exhausted_source_is_rejected_unchanged() {
    let mut repo = InMemorySectionRepository::new();
    repo.create(
        CreateSection { total: 0 },
        SectionInfo {
            gender: "male".to_string(),
            building: "C".to_string(),
            floor: 3,
        },
    );
    // nothing is available, so neither occupying nor disabling can proceed
    let err = repo
        .update(
            1,
            UpdateSection {
                id: 1,
                status: "occupied".to_string(),
            },
        )
        .unwrap_err();
    assert_eq!(err, RepositoryError::Transition(TransitionError::NoAvailable));
    let err = repo
        .update(
            1,
            UpdateSection {
                id: 1,
                status: "disabled".to_string(),
            },
        )
        .unwrap_err();
    assert_eq!(
        err,
        RepositoryError::Transition(TransitionError::NoAvailableToDisable)
    );
    let section = repo.find_by_id(1).unwrap();
    assert_eq!(section.available, 0);
    assert_eq!(section.occupied, 0);
    assert_eq!(section.disabled, 0);
}

#[test]
fn missing_id_is_not_found() {
    let mut repo = InMemorySectionRepository::new();
    let err = repo
        .update(
            9,
            UpdateSection {
                id: 9,
                status: "occupied".to_string(),
            },
        )
        .unwrap_err();
    assert_eq!(err, RepositoryError::NotFound(9));
    let err = repo.delete(9).unwrap_err();
    assert_eq!(err, RepositoryError::NotFound(9));
    assert!(repo.find_by_id(9).is_none());
}

#[test]
fn ids_stay_unique_after_deletion() {
    let mut repo = InMemorySectionRepository::new();
    let info = |floor: i32| SectionInfo {
        gender: "male".to_string(),
        building: "A".to_string(),
        floor,
    };
    let first = repo.create(CreateSection { total: 1 }, info(1));
    let second = repo.create(CreateSection { total: 2 }, info(2));
    assert_eq!(first.id, 1);
    assert_eq!(second.id, 2);
    repo.delete(1).unwrap();
    // the freed id 1 is never handed out again
    let third = repo.create(CreateSection { total: 3 }, info(3));
    assert_eq!(third.id, 3);
    let sections = repo.find_all();
    assert_eq!(sections.len(), 2);
    assert_eq!(sections[0].floor, 2);
    assert_eq!(sections[1].floor, 3);
}
