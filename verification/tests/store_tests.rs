use hospital::{Error, HospitalContract, Principal};

fn admin() -> Principal {
    Principal(1)
}

fn initialized() -> HospitalContract {
    let mut store = HospitalContract::new();
    store.initialize(admin()).unwrap();
    store
}

#[test]
fn test() {
    let mut store = HospitalContract::new();
    store.initialize(admin()).unwrap();
}

#[test]
fn check_if_admin() {
    let mut store = HospitalContract::new();
    let user = store.initialize(admin()).unwrap();
    store.check_admin(admin()).unwrap();
    assert_eq!(admin(), user);
}

#[test]
fn add_patient() {
    let mut store = initialized();

    let allergies = vec!["Cancer".to_string(), "Waking up".to_string()];
    let date_of_birth = 20304005;

    let patient_id = store
        .register_patient(
            admin(),
            "Rafe Aaron".to_string(),
            date_of_birth,
            "O+".to_string(),
            allergies,
            "65ydg97r5".to_string(),
        )
        .unwrap();
    assert_eq!(patient_id, 1);
}

#[test]
fn update_patient_details() {
    let mut store = initialized();

    let name = "Rafe Aaron".to_string();
    let mut date_of_birth = 20102003;
    let blood_type = "A+".to_string();
    let allergies = vec!["Cancer".to_string(), "Capricorns".to_string()];
    let insurance_id = "56789hhgfvb".to_string();

    let patient_id = store
        .register_patient(
            admin(),
            name.clone(),
            date_of_birth,
            blood_type.clone(),
            allergies.clone(),
            insurance_id.clone(),
        )
        .unwrap();

    date_of_birth = 10102005;

    let patient = store
        .update_patient(
            admin(),
            patient_id,
            name,
            date_of_birth,
            blood_type,
            allergies,
            insurance_id,
        )
        .unwrap();

    assert_eq!(patient.date_of_birth, date_of_birth);
}

#[test]
fn get_patient_details() {
    let mut store = initialized();

    let date_of_birth = 20102003;
    let patient_id = store
        .register_patient(
            admin(),
            "Rafe Aaron".to_string(),
            date_of_birth,
            "B+".to_string(),
            vec!["Cancer".to_string()],
            "6yy987yv".to_string(),
        )
        .unwrap();

    let patient = store.get_patient(patient_id).unwrap();

    assert_eq!(patient.date_of_birth, date_of_birth);
}

#[test]
fn set_paient_active() {
    let mut store = initialized();

    let patient_id = store
        .register_patient(
            admin(),
            "Rafe Aaron".to_string(),
            20102003,
            "B+".to_string(),
            vec!["Cancer".to_string()],
            "6yy987yv".to_string(),
        )
        .unwrap();

    let patient = store.set_patient_active(admin(), patient_id, true).unwrap();

    assert_eq!(patient.active, true);
}

#[test]
fn list_all_patients() {
    let mut store = initialized();

    for _ in 0..4 {
        store
            .register_patient(
                admin(),
                "Rafe Aaron".to_string(),
                20102003,
                "B+".to_string(),
                vec!["Cancer".to_string()],
                "6yy987yv".to_string(),
            )
            .unwrap();
    }

    let patients = store.list_patients();

    assert_eq!(patients.len(), 4);
}

#[test]
fn patient_ids_are_sequential_and_listing_ascends() {
    let mut store = initialized();

    for n in 1..=4u64 {
        let id = store
            .register_patient(
                admin(),
                format!("Patient {}", n),
                1000 + n,
                "O-".to_string(),
                vec![],
                format!("ins-{}", n),
            )
            .unwrap();
        assert_eq!(id, n);
    }

    let patients = store.list_patients();
    assert_eq!(patients.len(), 4);
    for (i, p) in patients.iter().enumerate() {
        assert_eq!(p.id, i as u64 + 1);
    }
}

#[test]
fn register_then_get_returns_fields_with_active_true() {
    let mut store = initialized();

    let id = store
        .register_patient(
            admin(),
            "Rafe Aaron".to_string(),
            20304005,
            "O+".to_string(),
            vec!["Cancer".to_string(), "Waking up".to_string()],
            "65ydg97r5".to_string(),
        )
        .unwrap();

    let p = store.get_patient(id).unwrap();
    assert_eq!(p.id, 1);
    assert_eq!(p.name, "Rafe Aaron");
    assert_eq!(p.date_of_birth, 20304005);
    assert_eq!(p.blood_type, "O+");
    assert_eq!(p.allergies, vec!["Cancer".to_string(), "Waking up".to_string()]);
    assert_eq!(p.insurance_id, "65ydg97r5");
    assert!(p.active);
}

#[test]
fn deactivate_then_reactivate_patient() {
    let mut store = initialized();

    let id = store
        .register_patient(
            admin(),
            "Rafe Aaron".to_string(),
            20102003,
            "B+".to_string(),
            vec!["Cancer".to_string()],
            "6yy987yv".to_string(),
        )
        .unwrap();

    store.set_patient_active(admin(), id, false).unwrap();
    assert!(!store.get_patient(id).unwrap().active);

    store.set_patient_active(admin(), id, true).unwrap();
    let p = store.get_patient(id).unwrap();
    assert!(p.active);
    assert_eq!(p.name, "Rafe Aaron");
    assert_eq!(p.date_of_birth, 20102003);
}

#[test]
fn update_keeps_id_and_active_flag() {
    let mut store = initialized();

    let id = store
        .register_patient(
            admin(),
            "Rafe Aaron".to_string(),
            20102003,
            "B+".to_string(),
            vec!["Cancer".to_string()],
            "6yy987yv".to_string(),
        )
        .unwrap();
    store.set_patient_active(admin(), id, false).unwrap();

    let p = store
        .update_patient(
            admin(),
            id,
            "Rafe A. Aaron".to_string(),
            10102005,
            "AB+".to_string(),
            vec![],
            "fresh-ins".to_string(),
        )
        .unwrap();

    assert_eq!(p.id, id);
    assert_eq!(p.name, "Rafe A. Aaron");
    assert!(!p.active);
}

#[test]
fn non_admin_mutations_are_rejected_and_change_nothing() {
    let mut store = initialized();
    let intruder = Principal(2);

    store
        .register_patient(
            admin(),
            "Rafe Aaron".to_string(),
            20102003,
            "B+".to_string(),
            vec!["Cancer".to_string()],
            "6yy987yv".to_string(),
        )
        .unwrap();

    assert_eq!(
        store.register_patient(
            intruder,
            "Nobody".to_string(),
            1,
            "A-".to_string(),
            vec![],
            "x".to_string(),
        ),
        Err(Error::Unauthorized)
    );
    assert_eq!(
        store.update_patient(
            intruder,
            1,
            "Nobody".to_string(),
            1,
            "A-".to_string(),
            vec![],
            "x".to_string(),
        ),
        Err(Error::Unauthorized)
    );
    assert_eq!(store.set_patient_active(intruder, 1, false), Err(Error::Unauthorized));
    assert_eq!(
        store.register_doctor(
            intruder,
            "Nobody".to_string(),
            "None".to_string(),
            "0".to_string(),
        ),
        Err(Error::Unauthorized)
    );

    // Counters and records are exactly as before the rejected calls.
    let patients = store.list_patients();
    assert_eq!(patients.len(), 1);
    assert_eq!(patients[0].name, "Rafe Aaron");
    assert!(patients[0].active);
    assert_eq!(store.list_doctors().len(), 0);
    // The next registration still receives the next id.
    let next = store
        .register_patient(
            admin(),
            "Second".to_string(),
            2,
            "O-".to_string(),
            vec![],
            "y".to_string(),
        )
        .unwrap();
    assert_eq!(next, 2);
}

#[test]
fn initialize_twice_is_rejected() {
    let mut store = HospitalContract::new();
    assert_eq!(store.initialize(admin()), Ok(admin()));
    assert_eq!(store.initialize(Principal(7)), Err(Error::AlreadyInitialized));
    // The first administrator still holds.
    assert!(store.check_admin(admin()).is_ok());
}

#[test]
fn mutations_before_initialize_are_rejected() {
    let mut store = HospitalContract::new();
    assert_eq!(
        store.register_patient(
            admin(),
            "Early".to_string(),
            1,
            "O+".to_string(),
            vec![],
            "z".to_string(),
        ),
        Err(Error::Uninitialized)
    );
    assert_eq!(
        store.record_medical_test(
            1,
            1,
            "Blood".to_string(),
            7,
            "ok".to_string(),
            "".to_string(),
        ),
        Err(Error::Uninitialized)
    );
    assert_eq!(store.check_admin(admin()), Err(Error::Uninitialized));
    assert_eq!(store.list_patients().len(), 0);
}

#[test]
fn lookups_of_unknown_ids_fail() {
    let store = HospitalContract::new();
    assert_eq!(store.get_patient(0), Err(Error::NotFound));
    assert_eq!(store.get_patient(1), Err(Error::NotFound));
    assert_eq!(store.get_doctor(1), Err(Error::NotFound));
    assert_eq!(store.get_medical_test(1), Err(Error::NotFound));

    let mut store = initialized();
    assert_eq!(
        store.update_patient(
            admin(),
            5,
            "Ghost".to_string(),
            1,
            "O+".to_string(),
            vec![],
            "g".to_string(),
        ),
        Err(Error::NotFound)
    );
    assert_eq!(store.set_doctor_active(admin(), 5, false), Err(Error::NotFound));
}

#[test]
fn doctor_lifecycle() {
    let mut store = initialized();

    let id = store
        .register_doctor(
            admin(),
            "Greg House".to_string(),
            "Diagnostics".to_string(),
            "MD-221".to_string(),
        )
        .unwrap();
    assert_eq!(id, 1);

    let d = store.get_doctor(id).unwrap();
    assert_eq!(d.name, "Greg House");
    assert_eq!(d.specialization, "Diagnostics");
    assert_eq!(d.license_number, "MD-221");
    assert!(d.active);

    let d = store
        .update_doctor(
            admin(),
            id,
            "Greg House".to_string(),
            "Nephrology".to_string(),
            "MD-222".to_string(),
        )
        .unwrap();
    assert_eq!(d.specialization, "Nephrology");
    assert_eq!(d.license_number, "MD-222");

    let d = store.set_doctor_active(admin(), id, false).unwrap();
    assert!(!d.active);

    let listed = store.list_doctors();
    assert_eq!(listed.len(), 1);
    assert!(!listed[0].active);
}

#[test]
fn recording_a_test_appends_to_both_indices() {
    let mut store = initialized();

    let patient_id = store
        .register_patient(
            admin(),
            "Rafe Aaron".to_string(),
            20102003,
            "B+".to_string(),
            vec![],
            "6yy987yv".to_string(),
        )
        .unwrap();
    let doctor_id = store
        .register_doctor(
            admin(),
            "Greg House".to_string(),
            "Diagnostics".to_string(),
            "MD-221".to_string(),
        )
        .unwrap();

    let test_id = store
        .record_medical_test(
            patient_id,
            doctor_id,
            "Blood panel".to_string(),
            20240101,
            "normal".to_string(),
            "fasting".to_string(),
        )
        .unwrap();
    assert_eq!(test_id, 1);

    let t = store.get_medical_test(test_id).unwrap();
    assert_eq!(t.id, 1);
    assert_eq!(t.patient_id, patient_id);
    assert_eq!(t.doctor_id, doctor_id);
    assert_eq!(t.test_type, "Blood panel");
    assert_eq!(t.test_date, 20240101);
    assert_eq!(t.results, "normal");
    assert_eq!(t.notes, "fasting");

    let second = store
        .record_medical_test(
            patient_id,
            doctor_id,
            "X-ray".to_string(),
            20240102,
            "clear".to_string(),
            "".to_string(),
        )
        .unwrap();
    assert_eq!(second, 2);

    assert_eq!(store.patient_tests[(patient_id - 1) as usize], vec![1, 2]);
    assert_eq!(store.doctor_tests[(doctor_id - 1) as usize], vec![1, 2]);
}

#[test]
fn recording_a_test_for_unregistered_owners_fails() {
    let mut store = initialized();

    let patient_id = store
        .register_patient(
            admin(),
            "Rafe Aaron".to_string(),
            20102003,
            "B+".to_string(),
            vec![],
            "6yy987yv".to_string(),
        )
        .unwrap();

    // No doctor is registered yet.
    assert_eq!(
        store.record_medical_test(
            patient_id,
            1,
            "Blood panel".to_string(),
            20240101,
            "normal".to_string(),
            "".to_string(),
        ),
        Err(Error::NotFound)
    );
    // Unknown patient.
    let doctor_id = store
        .register_doctor(
            admin(),
            "Greg House".to_string(),
            "Diagnostics".to_string(),
            "MD-221".to_string(),
        )
        .unwrap();
    assert_eq!(
        store.record_medical_test(
            9,
            doctor_id,
            "Blood panel".to_string(),
            20240101,
            "normal".to_string(),
            "".to_string(),
        ),
        Err(Error::NotFound)
    );
    // Both indices are still empty.
    assert_eq!(store.patient_tests[(patient_id - 1) as usize], Vec::<u64>::new());
    assert_eq!(store.doctor_tests[(doctor_id - 1) as usize], Vec::<u64>::new());
}

#[test]
fn example_walkthrough() {
    let mut store = HospitalContract::new();
    store.initialize(admin()).unwrap();

    let first = store
        .register_patient(
            admin(),
            "Rafe Aaron".to_string(),
            20304005,
            "O+".to_string(),
            vec!["Cancer".to_string(), "Waking up".to_string()],
            "65ydg97r5".to_string(),
        )
        .unwrap();
    assert_eq!(first, 1);
    assert_eq!(store.get_patient(1).unwrap().name, "Rafe Aaron");

    for expected in 2..=4u64 {
        let id = store
            .register_patient(
                admin(),
                format!("Patient {}", expected),
                20304005,
                "O+".to_string(),
                vec![],
                "65ydg97r5".to_string(),
            )
            .unwrap();
        assert_eq!(id, expected);
    }

    assert_eq!(store.list_patients().len(), 4);
}
