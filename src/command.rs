use vstd::prelude::*;

verus! {

/// The object-copy tool used where no other is configured.
pub const DEFAULT_OBJCOPY: &'static str = "arm-none-eabi-objcopy";

/// The size-reporting tool used where no other is configured.
pub const DEFAULT_SIZE_TOOL: &'static str = "arm-none-eabi-size";

/// A command line of an external tool: the program, its arguments, and the
/// directory it runs in (`None`: the caller's own).
pub struct ToolCommand {
    pub program: String,
    pub args: Vec<String>,
    pub working_dir: Option<String>,
}

/// The text of each string of a list.
pub open spec fn strings_view(v: Seq<String>) -> Seq<Seq<char>> {
    v.map_values(|s: String| s@)
}

/// The text of an optional string.
pub open spec fn opt_view(o: Option<String>) -> Option<Seq<char>> {
    match o {
        Some(s) => Some(s@),
        None => None,
    }
}

impl View for ToolCommand {
    type V = (Seq<char>, Seq<Seq<char>>, Option<Seq<char>>);

    open spec fn view(&self) -> (Seq<char>, Seq<Seq<char>>, Option<Seq<char>>) {
        (self.program@, strings_view(self.args@), opt_view(self.working_dir))
    }
}

/// The tool chosen from an explicit override and a fixed default, the override first.
pub open spec fn resolved_tool(override_path: Option<Seq<char>>, default_name: Seq<char>) -> Seq<char> {
    match override_path {
        Some(p) => p,
        None => default_name,
    }
}

/// The arguments of the provisioning tool's install command; run through the
/// interpreter, the tool's module is named first.
pub open spec fn install_args(use_python: bool, manifest: Seq<char>) -> Seq<Seq<char>> {
    if use_python {
        seq!["-m"@, "ledgerctl"@, "install"@, "-f"@, manifest]
    } else {
        seq!["install"@, "-f"@, manifest]
    }
}

/// The program that runs the install command.
pub open spec fn install_program(use_python: bool) -> Seq<char> {
    if use_python {
        "python3"@
    } else {
        "ledgerctl"@
    }
}

/// Picks the override where one is given, else the default tool.
pub fn resolve_tool(override_path: Option<String>, default_name: &str) -> (r: String)
    ensures
        r@ == resolved_tool(opt_view(override_path), default_name@),
{
    match override_path {
        Some(p) => p,
        None => default_name.to_owned(),
    }
}

/// The object-copy command that writes the ELF image at `elf_path` to `dest`
/// as Intel HEX.
pub fn objcopy_command(objcopy: String, elf_path: &str, dest: &str) -> (r: ToolCommand)
    ensures
        r@ == (objcopy@, seq![elf_path@, dest@, "-O"@, "ihex"@], None::<Seq<char>>),
{
    let mut args: Vec<String> = Vec::new();
    args.push(elf_path.to_owned());
    args.push(dest.to_owned());
    args.push("-O".to_owned());
    args.push("ihex".to_owned());
    let r = ToolCommand { program: objcopy, args, working_dir: None };
    proof {
        assert(strings_view(r.args@) =~= seq![elf_path@, dest@, "-O"@, "ihex"@]);
    }
    r
}

/// The size-reporting command on the ELF image at `elf_path`.
pub fn size_command(size_tool: String, elf_path: &str) -> (r: ToolCommand)
    ensures
        r@ == (size_tool@, seq![elf_path@], None::<Seq<char>>),
{
    let mut args: Vec<String> = Vec::new();
    args.push(elf_path.to_owned());
    let r = ToolCommand { program: size_tool, args, working_dir: None };
    proof {
        assert(strings_view(r.args@) =~= seq![elf_path@]);
    }
    r
}

/// The command that installs the application of the manifest `app_json` on a
/// device. It runs in `dir`, except in a dry run, which only shows it.
pub fn install_command(is_dry_run: bool, use_python: bool, dir: &str, app_json: &str) -> (r: ToolCommand)
    ensures
        r.program@ == install_program(use_python),
        strings_view(r.args@) == install_args(use_python, app_json@),
        opt_view(r.working_dir) == (if is_dry_run {
            None
        } else {
            Some(dir@)
        }),
{
    let mut args: Vec<String> = Vec::new();
    if use_python {
        args.push("-m".to_owned());
        args.push("ledgerctl".to_owned());
    }
    args.push("install".to_owned());
    args.push("-f".to_owned());
    args.push(app_json.to_owned());
    let program = if use_python {
        "python3".to_owned()
    } else {
        "ledgerctl".to_owned()
    };
    let working_dir = if is_dry_run {
        None
    } else {
        Some(dir.to_owned())
    };
    proof {
        assert(strings_view(args@) =~= install_args(use_python, app_json@));
    }
    ToolCommand { program, args, working_dir }
}

} // verus!
