use xp_tlk::cplugin::{CPluginEndpoints, HookError, InitInfo, ABI_VERSION};
use xp_tlk::error::{decimal, Failure};
use xp_tlk::NWNXError;
use xp_tlk::reply::{float_reply, int_reply, size_reply, FLOAT_FAILURE_BITS, INT_FAILURE, SIZE_FAILURE};

#[test]
fn values_pass_and_failures_become_sentinels() {
    assert_eq!(int_reply(Ok(0)), 0);
    assert_eq!(int_reply(Ok(1)), 1);
    assert_eq!(int_reply(Ok(-7)), -7);
    assert_eq!(float_reply(Ok(1.5f32.to_bits())), 1.5f32.to_bits());
    assert_eq!(size_reply(Ok(12)), 12);
    for failure in [
        Failure::UnknownFunction,
        Failure::NoResolver,
        Failure::NoBaseFTable,
        Failure::NoUserTable,
        Failure::InvalidTableIndex,
        Failure::OutOfRange,
        Failure::Unimplemented,
    ] {
        assert_eq!(int_reply(Err(failure)), -1);
        assert_eq!(f32::from_bits(float_reply(Err(failure))), -1.0);
        assert_eq!(size_reply(Err(failure)), 0);
    }
    assert_eq!(INT_FAILURE, -1);
    assert_eq!(f32::from_bits(FLOAT_FAILURE_BITS), -1.0);
    assert_eq!(SIZE_FAILURE, 0);
}

#[test]
fn failures_are_described_with_what_the_request_got_wrong() {
    assert_eq!(
        Failure::UnknownFunction.error("get_color", "main", 5).description(),
        "Unknown function: get_color"
    );
    assert_eq!(
        Failure::NoResolver.error("get_flags", "main", 5).description(),
        "No resolver with key: main"
    );
    assert_eq!(Failure::NoResolver.error("get", "", 0).description(), "No resolver with key: ");
    assert_eq!(
        Failure::NoBaseFTable.error("get_lang", "main", 1).description(),
        "No base_f TLK for resolver main"
    );
    assert_eq!(
        Failure::NoUserTable.error("get_lang", "main", 2).description(),
        "No user TLK for resolver main"
    );
    assert_eq!(
        Failure::InvalidTableIndex.error("get_lang", "main", 3).description(),
        "Invalid tlk index: 3"
    );
    assert_eq!(
        Failure::InvalidTableIndex.error("get_lang", "main", -12).description(),
        "Invalid tlk index: -12"
    );
    assert_eq!(
        Failure::OutOfRange.error("get_flags", "main", 5).description(),
        "out of range integral type conversion attempted"
    );
    assert_eq!(
        Failure::Unimplemented.error("set", "main", 5).description(),
        "Function is not implemented in CPlugin trait"
    );
    assert_eq!(
        Failure::NoResolver.error("get_flags", "main", 5).message(),
        "Error: No resolver with key: main"
    );
}

#[test]
fn integers_are_written_in_decimal() {
    assert_eq!(decimal(0), "0");
    assert_eq!(decimal(7), "7");
    assert_eq!(decimal(10), "10");
    assert_eq!(decimal(1234567890), "1234567890");
    assert_eq!(decimal(-1), "-1");
    assert_eq!(decimal(-305), "-305");
    assert_eq!(decimal(i32::MAX), "2147483647");
    assert_eq!(decimal(i32::MIN), "-2147483648");
}

#[test]
fn error_message_has_its_prefix() {
    let e = NWNXError::new(String::from("No resolver with key: \"main\""));
    assert_eq!(e.description(), "No resolver with key: \"main\"");
    assert_eq!(e.message(), "Error: No resolver with key: \"main\"");
    assert_eq!(e.clone().message(), e.message());
    assert_eq!(NWNXError::new(String::new()).message(), "Error: ");
}

#[test]
fn endpoints_are_read_by_name() {
    assert_eq!(CPluginEndpoints::from_name(b"GetID"), Ok(CPluginEndpoints::GetID));
    assert_eq!(CPluginEndpoints::from_name(b"GetInfo"), Ok(CPluginEndpoints::GetInfo));
    assert_eq!(CPluginEndpoints::from_name(b"GetVersion"), Ok(CPluginEndpoints::GetVersion));
    assert_eq!(CPluginEndpoints::from_name(b"GetInt"), Ok(CPluginEndpoints::GetInt));
    assert_eq!(CPluginEndpoints::from_name(b"SetInt"), Ok(CPluginEndpoints::SetInt));
    assert_eq!(CPluginEndpoints::from_name(b"GetFloat"), Ok(CPluginEndpoints::GetFloat));
    assert_eq!(CPluginEndpoints::from_name(b"SetFloat"), Ok(CPluginEndpoints::SetFloat));
    assert_eq!(CPluginEndpoints::from_name(b"GetString"), Ok(CPluginEndpoints::GetString));
    assert_eq!(CPluginEndpoints::from_name(b"SetString"), Ok(CPluginEndpoints::SetString));
    assert_eq!(CPluginEndpoints::from_name(b"GetGFFSize"), Ok(CPluginEndpoints::GetGFFSize));
    assert_eq!(CPluginEndpoints::from_name(b"GetGFF"), Ok(CPluginEndpoints::GetGFF));
    assert_eq!(CPluginEndpoints::from_name(b"SetGFF"), Ok(CPluginEndpoints::SetGFF));
}

#[test]
fn new_and_delete_cannot_be_declared() {
    assert_eq!(CPluginEndpoints::from_name(b"New"), Err(HookError::AlwaysImplemented));
    assert_eq!(CPluginEndpoints::from_name(b"Delete"), Err(HookError::AlwaysImplemented));
    assert_eq!(CPluginEndpoints::from_name(b"getint"), Err(HookError::UnknownHook));
    assert_eq!(CPluginEndpoints::from_name(b""), Err(HookError::UnknownHook));
    assert_eq!(CPluginEndpoints::from_name(b"GetGFFSizes"), Err(HookError::UnknownHook));
}

#[test]
fn endpoints_have_their_symbols() {
    assert_eq!(CPluginEndpoints::GetID.symbol(), "NWNXCPlugin_GetID");
    assert_eq!(CPluginEndpoints::GetString.symbol(), "NWNXCPlugin_GetString");
    assert_eq!(CPluginEndpoints::GetGFFSize.symbol(), "NWNXCPlugin_GetGFFSize");
    assert_eq!(CPluginEndpoints::SetGFF.symbol(), "NWNXCPlugin_SetGFF");
    assert_eq!(ABI_VERSION, 1);
    let info = InitInfo {
        dll_path: "a",
        nwnx_path: "b",
        nwn2_install_path: "c",
        nwn2_home_path: "d",
        nwn2_module_path: "e",
    };
    assert_eq!(info.nwn2_module_path, "e");
}
