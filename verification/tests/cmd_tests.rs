use smplvm::{Cmd, ParseOutcome, Register, Width};

#[test]
fn prev() {
    assert_eq!(Cmd::parse("", Some(Cmd::Step)), Ok(Cmd::Step));
    assert_eq!(Cmd::parse("", Some(Cmd::Continue)), Ok(Cmd::Continue));
}

#[test]
fn empty_without_prior_fails() {
    assert_eq!(Cmd::parse("", None), Err(()));
    assert_eq!(Cmd::parse("   \t ", None), Err(()));
}

#[test]
fn step_aliases() {
    for case in ["s", "step"] {
        assert_eq!(Cmd::parse(case, None), Ok(Cmd::Step));
    }
}

#[test]
fn continue_aliases() {
    for case in ["c", "cont", "continue"] {
        assert_eq!(Cmd::parse(case, None), Ok(Cmd::Continue));
    }
}

#[test]
fn getaddr() {
    for case in ["g 0x1234", "get 0x1234"] {
        assert_eq!(Cmd::parse(case, None), Ok(Cmd::GetAddr(0x1234)));
    }
}

#[test]
fn setaddr() {
    for case in ["s 0x1234 0x56", "set 0x1234 0x56"] {
        assert_eq!(Cmd::parse(case, None), Ok(Cmd::SetAddr(0x1234, 0x56)));
    }
}

#[test]
fn getreg() {
    let r0 = Register::numbered(Width::Word, 0);
    for case in ["g r0", "get r0"] {
        assert_eq!(Cmd::parse(case, None), Ok(Cmd::GetReg(r0)));
    }
}

#[test]
fn setreg() {
    let r0 = Register::numbered(Width::Word, 0);
    for case in ["s r0 0x1234", "set r0 0x1234"] {
        assert_eq!(Cmd::parse(case, None), Ok(Cmd::SetReg(r0, 0x1234)));
    }
}

#[test]
fn decimal_numbers() {
    assert_eq!(Cmd::parse("g 123", None), Ok(Cmd::GetAddr(123)));
    assert_eq!(Cmd::parse("set 10 255", None), Ok(Cmd::SetAddr(10, 255)));
}

#[test]
fn number_values_wrap_to_field_width() {
    assert_eq!(Cmd::parse("g 0x12345", None), Ok(Cmd::GetAddr(0x2345)));
    assert_eq!(Cmd::parse("set 0x10 0x1FF", None), Ok(Cmd::SetAddr(0x10, 0xFF)));
}

#[test]
fn register_names() {
    assert_eq!(
        Cmd::parse("g rip", None),
        Ok(Cmd::GetReg(Register { width: Width::Word, index: 1 }))
    );
    assert_eq!(
        Cmd::parse("g flags", None),
        Ok(Cmd::GetReg(Register { width: Width::Word, index: 3 }))
    );
    assert_eq!(
        Cmd::parse("g rb11", None),
        Ok(Cmd::GetReg(Register { width: Width::Byte, index: 15 }))
    );
    assert_eq!(Cmd::parse("g r12", None), Err(()));
    assert_eq!(Cmd::parse("g rb", None), Err(()));
    assert_eq!(Cmd::parse("g rx", None), Err(()));
}

#[test]
fn bare_get_set_need_more_tokens() {
    let get: Vec<Vec<u8>> = vec![b"get".to_vec()];
    assert_eq!(Cmd::parse_tokens(&get), ParseOutcome::NeedsMore);
    let set: Vec<Vec<u8>> = vec![b"set".to_vec()];
    assert_eq!(Cmd::parse_tokens(&set), ParseOutcome::NeedsMore);
    let set_addr: Vec<Vec<u8>> = vec![b"set".to_vec(), b"0x10".to_vec()];
    assert_eq!(Cmd::parse_tokens(&set_addr), ParseOutcome::NeedsMore);
    let junk: Vec<Vec<u8>> = vec![b"bogus".to_vec()];
    assert_eq!(Cmd::parse_tokens(&junk), ParseOutcome::Rejected);
    assert_eq!(Cmd::parse("get", None), Err(()));
    assert_eq!(Cmd::parse("set", None), Err(()));
    assert_eq!(Cmd::parse("s 5", None), Err(()));
}

#[test]
fn rejected_lines() {
    assert_eq!(Cmd::parse("step 5", None), Err(()));
    assert_eq!(Cmd::parse("c 1", None), Err(()));
    assert_eq!(Cmd::parse("set r0 1 2", None), Err(()));
    assert_eq!(Cmd::parse("get 0xZZ", None), Err(()));
}

#[test]
fn whitespace_between_words() {
    assert_eq!(Cmd::parse("  set\t0x10   7 ", None), Ok(Cmd::SetAddr(0x10, 7)));
}

#[test]
fn hex_digits_either_case() {
    assert_eq!(Cmd::parse("g 0xAb", None), Ok(Cmd::GetAddr(0xAB)));
    assert_eq!(Cmd::parse("g 0xff", None), Ok(Cmd::GetAddr(0xFF)));
}
