use wesh::cli::{
    initalize_shell, unknown_message, ConfigBranch, Directive, Effect, MetaAction, MetaCommand,
    Registry, ShellState, StateMessage,
};

fn branch(parent: Option<usize>, display: &str, cmd: &str) -> Directive {
    Directive::Branch(ConfigBranch::new(parent, display, cmd, "a branch"))
}

fn action(cmd: &str, a: MetaAction) -> Directive {
    Directive::Meta(MetaCommand::new(cmd, "an action", a))
}

#[test]
fn navigate_conf_up_up() {
    let mut s = initalize_shell();
    assert_eq!(s.cur, 0);
    assert_eq!(s.prompt(), ">");
    assert_eq!(s.step("conf"), Effect::Proceed);
    assert_eq!(s.cur, 1);
    assert_eq!(s.prompt(), "#");
    assert_eq!(s.step("up"), Effect::Proceed);
    assert_eq!(s.cur, 0);
    assert_eq!(s.prompt(), ">");
    assert_eq!(s.step("up"), Effect::Terminate);
    assert_eq!(s.cur, 0);
}

#[test]
fn bogus_is_unknown_and_quoted() {
    let mut s = initalize_shell();
    assert_eq!(s.r.determine_activity("bogus"), StateMessage::UnknownCommand);
    assert_eq!(s.step("bogus"), Effect::Unknown);
    assert_eq!(s.cur, 0);
    s.step("conf");
    assert_eq!(s.step("bogus"), Effect::Unknown);
    assert_eq!(s.cur, 1);
    let msg = unknown_message("bogus");
    assert!(msg.contains("bogus"));
    assert_eq!(msg, "Unknown command, `bogus`");
}

#[test]
fn help_lists_all_in_order() {
    let mut s = initalize_shell();
    s.step("conf");
    assert_eq!(s.step("?"), Effect::ListDirectives);
    assert_eq!(s.cur, 1);
    let entries = s.r.help_entries();
    let cmds: Vec<&str> = entries.iter().map(|e| e.0.as_str()).collect();
    assert_eq!(cmds, vec!["oper", "conf", "show", "exit", "up", "?"]);
    assert_eq!(entries[0].1, "Enter operational mode");
    assert_eq!(entries[1].1, "Enter global Configuration mode");
    assert_eq!(entries[2].1, "Displays configuration information");
    assert_eq!(entries[3].1, "Exits the current branch");
    assert_eq!(entries[4].1, "Exits the current branch");
    assert_eq!(entries[5].1, "Requests a copy of the description of all directives");
}

#[test]
fn exact_match_discriminates() {
    let s = initalize_shell();
    assert_eq!(s.r.determine_activity("oper"), StateMessage::StateMove(0));
    assert_eq!(s.r.determine_activity("conf"), StateMessage::StateMove(1));
    assert_eq!(s.r.determine_activity("show"), StateMessage::RunFunction(2));
    assert_eq!(s.r.determine_activity("exit"), StateMessage::RunFunction(3));
    assert_eq!(s.r.determine_activity("up"), StateMessage::RunFunction(4));
    assert_eq!(s.r.determine_activity("?"), StateMessage::RunFunction(5));
}

#[test]
fn no_trimming_or_case_folding() {
    let s = initalize_shell();
    assert_eq!(s.r.determine_activity("Oper"), StateMessage::UnknownCommand);
    assert_eq!(s.r.determine_activity(" oper"), StateMessage::UnknownCommand);
    assert_eq!(s.r.determine_activity("oper "), StateMessage::UnknownCommand);
    assert_eq!(s.r.determine_activity("op"), StateMessage::UnknownCommand);
    assert_eq!(s.r.determine_activity(""), StateMessage::UnknownCommand);
}

#[test]
fn first_registration_shadows_later() {
    let mut r = Registry::new();
    r.add(branch(None, ">", "root"));
    r.add(action("dup", MetaAction::Help));
    r.add(branch(Some(0), "#", "dup"));
    assert_eq!(r.determine_activity("dup"), StateMessage::RunFunction(1));
    let mut s = ShellState { r: r, cur: 0 };
    assert_eq!(s.step("dup"), Effect::ListDirectives);
    assert_eq!(s.cur, 0);
}

#[test]
fn empty_registry_resolves_nothing() {
    let r = Registry::new();
    assert_eq!(r.known_directives.len(), 0);
    assert_eq!(r.determine_activity("oper"), StateMessage::UnknownCommand);
    assert!(r.help_entries().is_empty());
}

#[test]
fn unknown_twice_is_idempotent() {
    let mut s = initalize_shell();
    s.step("conf");
    let first = s.step("nothing here");
    let cur_after_first = s.cur;
    let second = s.step("nothing here");
    assert_eq!(first, Effect::Unknown);
    assert_eq!(first, second);
    assert_eq!(cur_after_first, 1);
    assert_eq!(s.cur, 1);
    assert_eq!(s.r.known_directives.len(), 6);
}

#[test]
fn exit_terminates_anywhere() {
    let mut s = initalize_shell();
    assert_eq!(s.step("exit"), Effect::Terminate);
    s.step("conf");
    assert_eq!(s.step("exit"), Effect::Terminate);
    assert_eq!(s.cur, 1);
}

#[test]
fn show_asks_for_routes() {
    let mut s = initalize_shell();
    assert_eq!(s.step("show"), Effect::ShowRoutes);
    assert_eq!(s.cur, 0);
}

#[test]
fn up_from_deep_branch_goes_to_its_parent() {
    let mut r = Registry::new();
    r.add(branch(None, "a>", "a"));
    r.add(action("up", MetaAction::Up));
    r.add(branch(Some(0), "b>", "b"));
    r.add(branch(Some(2), "c>", "c"));
    let mut s = ShellState { r: r, cur: 0 };
    assert_eq!(s.step("c"), Effect::Proceed);
    assert_eq!(s.cur, 3);
    assert_eq!(s.step("up"), Effect::Proceed);
    assert_eq!(s.cur, 2);
    assert_eq!(s.prompt(), "b>");
    assert_eq!(s.step("up"), Effect::Proceed);
    assert_eq!(s.cur, 0);
    assert_eq!(s.step("up"), Effect::Terminate);
}

#[test]
fn parent_out_of_range_is_broken() {
    let mut r = Registry::new();
    r.add(branch(Some(9), ">", "lost"));
    r.add(action("up", MetaAction::Up));
    let mut s = ShellState { r: r, cur: 0 };
    assert_eq!(s.step("up"), Effect::BrokenParent);
    assert_eq!(s.cur, 0);
}

#[test]
fn parent_naming_an_action_is_broken() {
    let mut r = Registry::new();
    r.add(action("up", MetaAction::Up));
    r.add(branch(Some(0), ">", "lost"));
    let mut s = ShellState { r: r, cur: 1 };
    assert_eq!(s.step("up"), Effect::BrokenParent);
    assert_eq!(s.cur, 1);
}

#[test]
fn directive_accessors() {
    let b = ConfigBranch::new(Some(3), "%", "edit", "Edit things");
    assert_eq!(b.parent, Some(3));
    assert_eq!(b.get_display(), "%");
    let d = Directive::Branch(b);
    assert_eq!(d.get_cmd(), "edit");
    assert_eq!(d.get_brief(), "Edit things");
    assert_eq!(d.get_state_message(7), StateMessage::StateMove(7));
    assert!(d.matches(&String::from("edit")));
    assert!(!d.matches(&String::from("Edit")));
    let m = MetaCommand::new("bye", "Leave", MetaAction::Exit);
    assert_eq!(m.action, MetaAction::Exit);
    let d = Directive::Meta(m);
    assert_eq!(d.get_cmd(), "bye");
    assert_eq!(d.get_brief(), "Leave");
    assert_eq!(d.get_state_message(2), StateMessage::RunFunction(2));
}

#[test]
fn run_action_directly() {
    let mut s = initalize_shell();
    s.cur = 1;
    assert_eq!(s.run_action(MetaAction::Help), Effect::ListDirectives);
    assert_eq!(s.cur, 1);
    assert_eq!(s.run_action(MetaAction::Up), Effect::Proceed);
    assert_eq!(s.cur, 0);
    assert_eq!(s.apply(StateMessage::StateMove(1)), Effect::Proceed);
    assert_eq!(s.cur, 1);
    assert_eq!(s.apply(StateMessage::UnknownCommand), Effect::Unknown);
    assert_eq!(s.cur, 1);
}
