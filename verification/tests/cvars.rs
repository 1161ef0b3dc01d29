use richter::cvars::CvarRegistry;

#[test]
fn register_new_name_succeeds() {
    let mut reg = CvarRegistry::new();
    assert_eq!(reg.register("fov", "90"), Ok(()));
    assert_eq!(reg.register("sensitivity", "3"), Ok(()));
}

#[test]
fn register_same_name_twice_fails() {
    let mut reg = CvarRegistry::new();
    assert_eq!(reg.register("fov", "90"), Ok(()));
    assert_eq!(reg.register("fov", "100"), Err(()));
}

#[test]
fn every_kind_of_registration_checks_the_name() {
    let mut reg = CvarRegistry::new();
    assert_eq!(reg.register_archive("name", "player"), Ok(()));
    assert_eq!(reg.register("name", "x"), Err(()));
    assert_eq!(reg.register_updateinfo("name", "x"), Err(()));
    assert_eq!(reg.register_archive_updateinfo("name", "x"), Err(()));
    assert_eq!(reg.register_archive("name", "x"), Err(()));
}

#[test]
fn each_kind_registers_fresh_names() {
    let mut reg = CvarRegistry::new();
    assert_eq!(reg.register("a", "1"), Ok(()));
    assert_eq!(reg.register_archive("b", "2"), Ok(()));
    assert_eq!(reg.register_updateinfo("c", "3"), Ok(()));
    assert_eq!(reg.register_archive_updateinfo("d", "4"), Ok(()));
    assert_eq!(reg.register_archive_updateinfo("d", "4"), Err(()));
}

#[test]
fn names_are_case_sensitive() {
    let mut reg = CvarRegistry::new();
    assert_eq!(reg.register("Fov", "90"), Ok(()));
    assert_eq!(reg.register("fov", "90"), Ok(()));
}
