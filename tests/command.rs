use script_runner::command::ScriptCommand;

#[test]
fn default_command_runs_app_script_with_python3() {
    let c = ScriptCommand::python_default();
    assert_eq!(c.interpreter, "python3");
    assert_eq!(c.script, "../app.py");
}

#[test]
fn new_keeps_its_arguments() {
    let c = ScriptCommand::new("python3.12".to_string(), "job.py".to_string());
    assert_eq!(c.interpreter, "python3.12");
    assert_eq!(c.script, "job.py");
}

#[test]
fn resolved_in_joins_with_one_slash() {
    let c = ScriptCommand::python_default().resolved_in("/srv/app/bin");
    assert_eq!(c.interpreter, "python3");
    assert_eq!(c.script, "/srv/app/bin/../app.py");
}

#[test]
fn resolved_in_keeps_trailing_slash_of_base() {
    let c = ScriptCommand::python_default().resolved_in("/srv/app/bin/");
    assert_eq!(c.script, "/srv/app/bin/../app.py");
}

#[test]
fn resolved_in_empty_base_leaves_script() {
    let c = ScriptCommand::python_default().resolved_in("");
    assert_eq!(c.script, "../app.py");
}

#[test]
fn resolved_in_leaves_absolute_script() {
    let c = ScriptCommand::new("python3".to_string(), "/opt/app.py".to_string()).resolved_in("/srv");
    assert_eq!(c.script, "/opt/app.py");
}

#[test]
fn resolved_in_handles_non_ascii_base() {
    let c = ScriptCommand::new("python3".to_string(), "app.py".to_string()).resolved_in("/home/j\u{f6}rg");
    assert_eq!(c.script, "/home/j\u{f6}rg/app.py");
}
