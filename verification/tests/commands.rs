use posterbot_constructor::commands::{
    connect_code_matches, parse_command, parse_language_arg, parse_master_command,
    parse_post_link, parse_reply_target, parse_start_args, MasterCommand, StartAction,
    WorkerCommand,
};
use posterbot_constructor::locales::Locale;

#[test]
fn worker_commands_are_read() {
    let c = parse_command("/start admin_ABC");
    assert_eq!(c.command, WorkerCommand::Start);
    assert_eq!(c.args, "admin_ABC");
    let c = parse_command("/PARDON   BAN-123456  ");
    assert_eq!(c.command, WorkerCommand::Pardon);
    assert_eq!(c.args, "BAN-123456");
    assert_eq!(parse_command("/proposals").command, WorkerCommand::Proposals);
    assert_eq!(parse_command("/proposals").args, "");
    assert_eq!(parse_command("/addadmin").command, WorkerCommand::AddAdmin);
    assert_eq!(parse_command("/admins").command, WorkerCommand::Admins);
    assert_eq!(parse_command("/banned").command, WorkerCommand::Banned);
    assert_eq!(parse_command("/reply 5").command, WorkerCommand::Reply);
    assert_eq!(parse_command("/addreplies\tlink").command, WorkerCommand::AddReplies);
    assert_eq!(parse_command("/addreplies\tlink").args, "link");
    assert_eq!(parse_command("/lang ru").command, WorkerCommand::Lang);
    assert_eq!(parse_command("//start").command, WorkerCommand::Start);
    assert_eq!(parse_command("/unknown").command, WorkerCommand::Unknown);
}

#[test]
fn start_links_are_read() {
    assert_eq!(parse_start_args("admin_XY12"), StartAction::AdminInvite("XY12".to_string()));
    assert_eq!(parse_start_args("reply_42"), StartAction::ReplyTo(42));
    assert_eq!(parse_start_args("reply_0"), StartAction::InvalidReplyLink);
    assert_eq!(parse_start_args("reply_x"), StartAction::InvalidReplyLink);
    assert_eq!(parse_start_args(""), StartAction::Greet);
    assert_eq!(parse_start_args("hello"), StartAction::Greet);
}

#[test]
fn reply_targets_are_positive_ids() {
    assert_eq!(parse_reply_target(" 17 "), Some(17));
    assert_eq!(parse_reply_target("0"), None);
    assert_eq!(parse_reply_target("-3"), None);
    assert_eq!(parse_reply_target("abc"), None);
}

#[test]
fn post_links_are_read() {
    assert_eq!(parse_post_link("https://t.me/mychan/15"), Some(15));
    assert_eq!(parse_post_link("https://t.me/c/123456/99?single"), Some(99));
    assert_eq!(parse_post_link("T.ME/Chan/7"), Some(7));
    assert_eq!(parse_post_link("https://t.me/mychan"), None);
    assert_eq!(parse_post_link("https://example.com/1"), None);
    assert_eq!(parse_post_link("t.me/chan/x"), None);
}

#[test]
fn connect_codes_ignore_case() {
    assert!(connect_code_matches("/connect ab12", "AB12"));
    assert!(connect_code_matches("/CONNECT  AB12  ", "ab12"));
    assert!(!connect_code_matches("/connect AB13", "AB12"));
    assert!(!connect_code_matches("connect AB12", "AB12"));
}

#[test]
fn owner_commands_are_read() {
    assert_eq!(parse_master_command("/help", true), MasterCommand::Help);
    assert_eq!(parse_master_command("/help", false), MasterCommand::Other);
    assert_eq!(parse_master_command("/clients", true), MasterCommand::Clients);
    assert_eq!(parse_master_command("/stats", true), MasterCommand::Stats);
    assert_eq!(
        parse_master_command("/setplan 123 pro", true),
        MasterCommand::SetPlan(123, "pro".to_string())
    );
    assert_eq!(
        parse_master_command("/setplan abc free now", true),
        MasterCommand::SetPlan(0, "free now".to_string())
    );
    assert_eq!(parse_master_command("/setplan 123", true), MasterCommand::SetPlanUsage);
    assert_eq!(parse_master_command("/banclient 99", true), MasterCommand::BanClient(99));
    assert_eq!(parse_master_command("/banclient", true), MasterCommand::BanClientMissing);
    assert_eq!(parse_master_command("/start", false), MasterCommand::Start);
    assert_eq!(parse_master_command("/start", true), MasterCommand::Start);
    assert_eq!(parse_master_command("123:token", false), MasterCommand::Other);
}

#[test]
fn language_arguments_are_read() {
    assert_eq!(parse_language_arg(" RU "), Some(Locale::Ru));
    assert_eq!(parse_language_arg("en"), Some(Locale::En));
    assert_eq!(parse_language_arg("de"), None);
    assert_eq!(parse_language_arg(""), None);
}
