use nvram_build_utils::command::{
    install_command, objcopy_command, resolve_tool, size_command, DEFAULT_OBJCOPY,
    DEFAULT_SIZE_TOOL,
};

#[test]
fn dry_run_native_install_command() {
    let c = install_command(true, false, "/work/app", "app.json");
    assert_eq!(c.program, "ledgerctl");
    assert_eq!(c.args, vec!["install", "-f", "app.json"]);
    assert_eq!(c.working_dir, None);
}

#[test]
fn interpreter_install_command_runs_in_dir() {
    let c = install_command(false, true, "/work/app", "/work/app/app.json");
    assert_eq!(c.program, "python3");
    assert_eq!(c.args, vec!["-m", "ledgerctl", "install", "-f", "/work/app/app.json"]);
    assert_eq!(c.working_dir, Some("/work/app".to_string()));
}

#[test]
fn native_install_command_runs_in_dir() {
    let c = install_command(false, false, "build", "app.json");
    assert_eq!(c.program, "ledgerctl");
    assert_eq!(c.args, vec!["install", "-f", "app.json"]);
    assert_eq!(c.working_dir, Some("build".to_string()));
}

#[test]
fn override_tool_comes_first() {
    assert_eq!(resolve_tool(Some("/opt/bin/objcopy".to_string()), DEFAULT_OBJCOPY), "/opt/bin/objcopy");
    assert_eq!(resolve_tool(None, DEFAULT_OBJCOPY), "arm-none-eabi-objcopy");
    assert_eq!(resolve_tool(None, DEFAULT_SIZE_TOOL), "arm-none-eabi-size");
}

#[test]
fn export_commands() {
    let c = objcopy_command("arm-none-eabi-objcopy".to_string(), "app.elf", "app.hex");
    assert_eq!(c.program, "arm-none-eabi-objcopy");
    assert_eq!(c.args, vec!["app.elf", "app.hex", "-O", "ihex"]);
    assert_eq!(c.working_dir, None);
    let s = size_command("arm-none-eabi-size".to_string(), "app.elf");
    assert_eq!(s.program, "arm-none-eabi-size");
    assert_eq!(s.args, vec!["app.elf"]);
    assert_eq!(s.working_dir, None);
}
