use user_core::{finish_create_user, new_user, CreateUserCommand, CreateUserError, User, UserName};

fn command(raw: &str) -> CreateUserCommand {
    CreateUserCommand::new(UserName::new(raw.to_string()).unwrap())
}

fn run(
    cmd: CreateUserCommand,
    save: impl Fn(&User) -> Result<(), String>,
) -> Result<User, CreateUserError<String>> {
    let user = new_user(cmd);
    let saved = save(&user);
    finish_create_user(user, saved)
}

#[test]
fn command_keeps_name() {
    let cmd = command("carol");
    assert_eq!(cmd.name().to_string(), "carol");
}

#[test]
fn successful_save_returns_user() {
    let user = run(command("dave"), |_| Ok(())).unwrap();
    assert_eq!(user.name().to_string(), "dave");
}

#[test]
fn saved_user_is_the_returned_user() {
    let user = new_user(command("erin"));
    let saved_id = *user.id();
    let result = finish_create_user(user, Ok::<(), String>(())).unwrap();
    assert_eq!(*result.id(), saved_id);
    assert_eq!(result.name().to_string(), "erin");
}

#[test]
fn failed_save_reports_context() {
    let err = run(command("frank"), |_| Err("disk full".to_string())).unwrap_err();
    assert_eq!(err.message(), "user creation failed");
    assert!(err.message().contains("creation failed"));
    assert_eq!(err.into_source(), "disk full");
}

#[test]
fn failed_save_keeps_source() {
    let user = new_user(command("gina"));
    let err = finish_create_user(user, Err::<(), u32>(42)).unwrap_err();
    assert_eq!(err.source, 42);
}
