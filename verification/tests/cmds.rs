use std::cell::RefCell;

use richter::cmds::CmdRegistry;

#[test]
fn add_then_exec_runs_command_with_args() {
    let seen: RefCell<Vec<String>> = RefCell::new(Vec::new());
    let mut reg: CmdRegistry<Box<dyn Fn(Vec<&str>) + '_>> = CmdRegistry::new();
    let record = |args: Vec<&str>| {
        seen.borrow_mut().push(args.join(" "));
    };
    assert_eq!(reg.add_cmd("map", Box::new(record)), Ok(()));
    assert_eq!(reg.exec_cmd("map", vec!["e1m1"]), Ok(()));
    assert_eq!(reg.exec_cmd("map", vec!["e1m2", "skill"]), Ok(()));
    drop(reg);
    assert_eq!(seen.into_inner(), vec!["e1m1".to_string(), "e1m2 skill".to_string()]);
}

#[test]
fn exec_unknown_command_fails() {
    let mut reg: CmdRegistry<Box<dyn Fn(Vec<&str>)>> = CmdRegistry::new();
    assert_eq!(reg.exec_cmd("quit", Vec::new()), Err(()));
    assert_eq!(reg.add_cmd("quit", Box::new(|_args: Vec<&str>| {})), Ok(()));
    assert_eq!(reg.exec_cmd("Quit", Vec::new()), Err(()));
    assert_eq!(reg.exec_cmd("quit", Vec::new()), Ok(()));
}

#[test]
fn add_same_name_twice_fails_and_keeps_first() {
    let which: RefCell<u32> = RefCell::new(0);
    let mut reg: CmdRegistry<Box<dyn Fn(Vec<&str>) + '_>> = CmdRegistry::new();
    assert_eq!(reg.add_cmd("echo", Box::new(|_args: Vec<&str>| *which.borrow_mut() = 1)), Ok(()));
    assert_eq!(reg.add_cmd("echo", Box::new(|_args: Vec<&str>| *which.borrow_mut() = 2)), Err(()));
    assert_eq!(reg.exec_cmd("echo", Vec::new()), Ok(()));
    drop(reg);
    assert_eq!(which.into_inner(), 1);
}
