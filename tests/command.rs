use vision_chat::command::{classify_line, parse_command, Command};

#[test]
fn commands_are_read_from_trimmed_lines() {
    assert!(matches!(parse_command("  /clear\n"), Command::Clear));
    assert!(matches!(parse_command("/clip"), Command::Clip));
    assert!(matches!(parse_command("C\n"), Command::Clip));
    assert!(matches!(parse_command("/exit"), Command::Exit));
    assert!(matches!(parse_command("/image   "), Command::MissingImagePath));
    match parse_command("  /image  pics/a.png \n") {
        Command::Image(p) => assert_eq!(p, "pics/a.png"),
        _ => panic!("expected an image command"),
    }
    match parse_command("  what is this?\n") {
        Command::Ask(q) => assert_eq!(q, "what is this?"),
        _ => panic!("expected a question"),
    }
}

#[test]
fn classify_keeps_the_rest_of_an_image_line() {
    match classify_line("/image x.png") {
        Command::Image(p) => assert_eq!(p, " x.png"),
        _ => panic!("expected an image command"),
    }
    assert!(matches!(classify_line("/clearall"), Command::Clear));
    match classify_line("Cat") {
        Command::Ask(q) => assert_eq!(q, "Cat"),
        _ => panic!("expected a question"),
    }
}
