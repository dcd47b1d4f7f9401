use libpulse_binding::error::{Code, PAErr};

/// Check `PAErr` <=> `Code` conversions
#[test]
fn check_code_paerr_conversions() {
    assert_eq!(Ok(Code::OK),                   Code::try_from(PAErr(0)));
    assert_eq!(Ok(Code::Access),               Code::try_from(PAErr(-1)));
    assert_eq!(Ok(Code::Command),              Code::try_from(PAErr(-2)));
    assert_eq!(Ok(Code::Invalid),              Code::try_from(PAErr(-3)));
    assert_eq!(Ok(Code::Exist),                Code::try_from(PAErr(-4)));
    assert_eq!(Ok(Code::NoEntity),             Code::try_from(PAErr(-5)));
    assert_eq!(Ok(Code::ConnectionRefused),    Code::try_from(PAErr(-6)));
    assert_eq!(Ok(Code::Protocol),             Code::try_from(PAErr(-7)));
    assert_eq!(Ok(Code::Timeout),              Code::try_from(PAErr(-8)));
    assert_eq!(Ok(Code::AuthKey),              Code::try_from(PAErr(-9)));
    assert_eq!(Ok(Code::Internal),             Code::try_from(PAErr(-10)));
    assert_eq!(Ok(Code::ConnectionTerminated), Code::try_from(PAErr(-11)));
    assert_eq!(Ok(Code::Killed),               Code::try_from(PAErr(-12)));
    assert_eq!(Ok(Code::InvalidServer),        Code::try_from(PAErr(-13)));
    assert_eq!(Ok(Code::ModInitFailed),        Code::try_from(PAErr(-14)));
    assert_eq!(Ok(Code::BadState),             Code::try_from(PAErr(-15)));
    assert_eq!(Ok(Code::NoData),               Code::try_from(PAErr(-16)));
    assert_eq!(Ok(Code::Version),              Code::try_from(PAErr(-17)));
    assert_eq!(Ok(Code::TooLarge),             Code::try_from(PAErr(-18)));
    assert_eq!(Ok(Code::NotSupported),         Code::try_from(PAErr(-19)));
    assert_eq!(Ok(Code::Unknown),              Code::try_from(PAErr(-20)));
    assert_eq!(Ok(Code::NoExtension),          Code::try_from(PAErr(-21)));
    assert_eq!(Ok(Code::Obsolete),             Code::try_from(PAErr(-22)));
    assert_eq!(Ok(Code::NotImplemented),       Code::try_from(PAErr(-23)));
    assert_eq!(Ok(Code::Forked),               Code::try_from(PAErr(-24)));
    assert_eq!(Ok(Code::IO),                   Code::try_from(PAErr(-25)));
    assert_eq!(Ok(Code::Busy),                 Code::try_from(PAErr(-26)));
    assert_eq!(Err(()),                        Code::try_from(PAErr(-27)));
    assert_eq!(Err(()),                        Code::try_from(PAErr(1)));

    assert_eq!(PAErr::from(Code::OK),                   PAErr(0));
    assert_eq!(PAErr::from(Code::Access),               PAErr(-1));
    assert_eq!(PAErr::from(Code::Command),              PAErr(-2));
    assert_eq!(PAErr::from(Code::Invalid),              PAErr(-3));
    assert_eq!(PAErr::from(Code::Exist),                PAErr(-4));
    assert_eq!(PAErr::from(Code::NoEntity),             PAErr(-5));
    assert_eq!(PAErr::from(Code::ConnectionRefused),    PAErr(-6));
    assert_eq!(PAErr::from(Code::Protocol),             PAErr(-7));
    assert_eq!(PAErr::from(Code::Timeout),              PAErr(-8));
    assert_eq!(PAErr::from(Code::AuthKey),              PAErr(-9));
    assert_eq!(PAErr::from(Code::Internal),             PAErr(-10));
    assert_eq!(PAErr::from(Code::ConnectionTerminated), PAErr(-11));
    assert_eq!(PAErr::from(Code::Killed),               PAErr(-12));
    assert_eq!(PAErr::from(Code::InvalidServer),        PAErr(-13));
    assert_eq!(PAErr::from(Code::ModInitFailed),        PAErr(-14));
    assert_eq!(PAErr::from(Code::BadState),             PAErr(-15));
    assert_eq!(PAErr::from(Code::NoData),               PAErr(-16));
    assert_eq!(PAErr::from(Code::Version),              PAErr(-17));
    assert_eq!(PAErr::from(Code::TooLarge),             PAErr(-18));
    assert_eq!(PAErr::from(Code::NotSupported),         PAErr(-19));
    assert_eq!(PAErr::from(Code::Unknown),              PAErr(-20));
    assert_eq!(PAErr::from(Code::NoExtension),          PAErr(-21));
    assert_eq!(PAErr::from(Code::Obsolete),             PAErr(-22));
    assert_eq!(PAErr::from(Code::NotImplemented),       PAErr(-23));
    assert_eq!(PAErr::from(Code::Forked),               PAErr(-24));
    assert_eq!(PAErr::from(Code::IO),                   PAErr(-25));
    assert_eq!(PAErr::from(Code::Busy),                 PAErr(-26));
}

#[test]
fn code_error_round_trip_all() {
    for n in 0..27 {
        let c = Code::from_number(n).unwrap();
        assert_eq!(c.number(), n);
        assert_eq!(Code::try_from(PAErr::from(c)), Ok(c));
    }
    assert_eq!(Code::from_number(27), None);
    assert_eq!(Code::from_number(-1), None);
    assert_eq!(Code::try_from(PAErr(i32::MAX)), Err(()));
    assert_eq!(Code::try_from(PAErr(i32::MIN + 1)), Err(()));
    assert_eq!(Code::try_from(PAErr(i32::MIN)), Err(()));
}
