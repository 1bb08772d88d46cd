use jrs::session::{placeholder_input, ReadPolicy, WindowPolicy, WritePolicy, JCBs, SMTYPE};

#[test]
fn session_codes() {
    assert_eq!(SMTYPE::windows().code, 0);
    assert_eq!(SMTYPE::java().code, 2);
    assert_eq!(SMTYPE::console().code, 3);
}

#[test]
fn default_configuration_is_console() {
    let c = JCBs::default();
    assert_eq!(c.wr, WritePolicy::HostConsole);
    assert_eq!(c.wd, WindowPolicy::NoOp);
    assert_eq!(c.rd, ReadPolicy::FixedPlaceholder);
    assert_eq!(c.sm, SMTYPE::console());
}

#[test]
fn placeholder_is_fixed_sentence() {
    assert_eq!(placeholder_input(), "i.3 3");
}
