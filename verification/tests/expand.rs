use ssh_key_setup::expand::{expand, home_from, system_home};

#[test]
fn leading_tilde_becomes_home() {
    assert_eq!(expand("~/.ssh", Some("/home/user")), "/home/user/.ssh");
    assert_eq!(expand("~/.ssh/authorized_keys", Some("/root")), "/root/.ssh/authorized_keys");
}

#[test]
fn lone_tilde_becomes_home() {
    assert_eq!(expand("~", Some("/home/user")), "/home/user");
}

#[test]
fn tilde_of_another_user_is_left() {
    assert_eq!(expand("~other/.ssh", Some("/home/user")), "~other/.ssh");
    assert_eq!(expand("~.pub", Some("/home/user")), "~.pub");
}

#[test]
fn tilde_inside_a_path_is_left() {
    assert_eq!(expand("/srv/~/x", Some("/home/user")), "/srv/~/x");
    assert_eq!(expand("a~", Some("/home/user")), "a~");
}

#[test]
fn path_without_tilde_is_left() {
    assert_eq!(expand("/etc/ssh", Some("/home/user")), "/etc/ssh");
    assert_eq!(expand("", Some("/home/user")), "");
}

#[test]
fn nothing_expands_without_home() {
    assert_eq!(expand("~/.ssh", None), "~/.ssh");
    assert_eq!(expand("~", None), "~");
    assert_eq!(expand("/etc/ssh", None), "/etc/ssh");
}

#[test]
fn tilde_before_backslash_is_left() {
    assert_eq!(expand("~\\keys", Some("/home/user")), "~\\keys");
    assert_eq!(expand("~\\", None), "~\\");
}

#[test]
fn home_written_as_tilde_changes_nothing() {
    assert_eq!(expand("~/.ssh", Some("~")), "~/.ssh");
    assert_eq!(expand("~", Some("~")), "~");
}

#[test]
fn empty_home_only_drops_the_tilde() {
    assert_eq!(expand("~/x", Some("")), "/x");
}

#[test]
fn expansion_agrees_with_the_crate() {
    let paths = ["~", "~/", "~/a/b", "~a", "a", "", "/~", "~~", "~/~"];
    for path in paths {
        let by_crate = shellexpand::tilde_with_context(path, || Some("/h/u")).into_owned();
        assert_eq!(expand(path, Some("/h/u")), by_crate);
        let without = shellexpand::tilde_with_context(path, || None::<&str>).into_owned();
        assert_eq!(expand(path, None), without);
    }
}

#[test]
fn expanded_tilde_names_home() {
    assert_eq!(home_from("/home/user".to_string()), Some("/home/user".to_string()));
    assert_eq!(home_from("/".to_string()), Some("/".to_string()));
    assert_eq!(home_from(String::new()), Some(String::new()));
    assert_eq!(home_from("~/".to_string()), Some("~/".to_string()));
    assert_eq!(home_from("~~".to_string()), Some("~~".to_string()));
}

#[test]
fn tilde_that_stayed_names_no_home() {
    assert_eq!(home_from("~".to_string()), None);
}

#[test]
fn system_home_is_where_the_system_expands_a_tilde() {
    let by_crate = shellexpand::tilde("~").into_owned();
    let expected = if by_crate == "~" { None } else { Some(by_crate) };
    assert_eq!(system_home(), expected);
}

#[test]
fn paths_expand_with_system_home_as_the_system_expands_them() {
    let home = system_home();
    for path in ["~/.ssh", "~/.ssh/authorized_keys", "~", "/tmp/x", "~someone/x"] {
        assert_eq!(expand(path, home.as_deref()), shellexpand::tilde(path).into_owned());
    }
}
