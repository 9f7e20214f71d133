//! The plugin interface as the host sees it: what a new instance is told,
//! and the entry points a plugin may declare.

use vstd::prelude::*;
use vstd::string::StringSliceAdditionalSpecFns;
use crate::text::bytes_eq;

verus! {

/// The version of the calling convention that the host reads first.
pub const ABI_VERSION: u32 = 1;

/// What the host tells a new instance about its surroundings.
pub struct InitInfo<'a> {
    pub dll_path: &'a str,
    pub nwnx_path: &'a str,
    pub nwn2_install_path: &'a str,
    pub nwn2_home_path: &'a str,
    pub nwn2_module_path: &'a str,
}

/// The entry points that a plugin may declare. Creating and destroying an
/// instance are always there and are not declared.
#[derive(Debug, Clone, Copy, PartialEq, Eq, Structural)]
pub enum CPluginEndpoints {
    GetID,
    GetInfo,
    GetVersion,
    GetInt,
    SetInt,
    GetFloat,
    SetFloat,
    GetString,
    SetString,
    GetGFFSize,
    GetGFF,
    SetGFF,
}

/// Why a name cannot be declared as an entry point.
#[derive(Debug, Clone, Copy, PartialEq, Eq, Structural)]
pub enum HookError {
    /// `New` and `Delete` exist in every plugin.
    AlwaysImplemented,
    /// No entry point has this name.
    UnknownHook,
}

/// The entry point, or the refusal, that a declared name stands for.
pub open spec fn endpoint_of(name: Seq<u8>) -> Result<CPluginEndpoints, HookError> {
    if name == "New".spec_bytes() || name == "Delete".spec_bytes() {
        Err(HookError::AlwaysImplemented)
    } else if name == "GetID".spec_bytes() {
        Ok(CPluginEndpoints::GetID)
    } else if name == "GetInfo".spec_bytes() {
        Ok(CPluginEndpoints::GetInfo)
    } else if name == "GetVersion".spec_bytes() {
        Ok(CPluginEndpoints::GetVersion)
    } else if name == "GetInt".spec_bytes() {
        Ok(CPluginEndpoints::GetInt)
    } else if name == "SetInt".spec_bytes() {
        Ok(CPluginEndpoints::SetInt)
    } else if name == "GetFloat".spec_bytes() {
        Ok(CPluginEndpoints::GetFloat)
    } else if name == "SetFloat".spec_bytes() {
        Ok(CPluginEndpoints::SetFloat)
    } else if name == "GetString".spec_bytes() {
        Ok(CPluginEndpoints::GetString)
    } else if name == "SetString".spec_bytes() {
        Ok(CPluginEndpoints::SetString)
    } else if name == "GetGFFSize".spec_bytes() {
        Ok(CPluginEndpoints::GetGFFSize)
    } else if name == "GetGFF".spec_bytes() {
        Ok(CPluginEndpoints::GetGFF)
    } else if name == "SetGFF".spec_bytes() {
        Ok(CPluginEndpoints::SetGFF)
    } else {
        Err(HookError::UnknownHook)
    }
}

impl CPluginEndpoints {
    /// The symbol under which the host looks for each entry point.
    pub open spec fn symbol_of(self) -> Seq<char> {
        match self {
            CPluginEndpoints::GetID => "NWNXCPlugin_GetID"@,
            CPluginEndpoints::GetInfo => "NWNXCPlugin_GetInfo"@,
            CPluginEndpoints::GetVersion => "NWNXCPlugin_GetVersion"@,
            CPluginEndpoints::GetInt => "NWNXCPlugin_GetInt"@,
            CPluginEndpoints::SetInt => "NWNXCPlugin_SetInt"@,
            CPluginEndpoints::GetFloat => "NWNXCPlugin_GetFloat"@,
            CPluginEndpoints::SetFloat => "NWNXCPlugin_SetFloat"@,
            CPluginEndpoints::GetString => "NWNXCPlugin_GetString"@,
            CPluginEndpoints::SetString => "NWNXCPlugin_SetString"@,
            CPluginEndpoints::GetGFFSize => "NWNXCPlugin_GetGFFSize"@,
            CPluginEndpoints::GetGFF => "NWNXCPlugin_GetGFF"@,
            CPluginEndpoints::SetGFF => "NWNXCPlugin_SetGFF"@,
        }
    }

    /// The symbol under which the host looks for this entry point.
    pub fn symbol(&self) -> (name: &'static str)
        ensures
            name@ == self.symbol_of(),
    {
        match self {
            CPluginEndpoints::GetID => "NWNXCPlugin_GetID",
            CPluginEndpoints::GetInfo => "NWNXCPlugin_GetInfo",
            CPluginEndpoints::GetVersion => "NWNXCPlugin_GetVersion",
            CPluginEndpoints::GetInt => "NWNXCPlugin_GetInt",
            CPluginEndpoints::SetInt => "NWNXCPlugin_SetInt",
            CPluginEndpoints::GetFloat => "NWNXCPlugin_GetFloat",
            CPluginEndpoints::SetFloat => "NWNXCPlugin_SetFloat",
            CPluginEndpoints::GetString => "NWNXCPlugin_GetString",
            CPluginEndpoints::SetString => "NWNXCPlugin_SetString",
            CPluginEndpoints::GetGFFSize => "NWNXCPlugin_GetGFFSize",
            CPluginEndpoints::GetGFF => "NWNXCPlugin_GetGFF",
            CPluginEndpoints::SetGFF => "NWNXCPlugin_SetGFF",
        }
    }

    /// Reads the name under which a plugin declares an entry point.
    pub fn from_name(name: &[u8]) -> (r: Result<CPluginEndpoints, HookError>)
        ensures
            r == endpoint_of(name@),
    {
        if bytes_eq(name, "New".as_bytes()) || bytes_eq(name, "Delete".as_bytes()) {
            Err(HookError::AlwaysImplemented)
        } else if bytes_eq(name, "GetID".as_bytes()) {
            Ok(CPluginEndpoints::GetID)
        } else if bytes_eq(name, "GetInfo".as_bytes()) {
            Ok(CPluginEndpoints::GetInfo)
        } else if bytes_eq(name, "GetVersion".as_bytes()) {
            Ok(CPluginEndpoints::GetVersion)
        } else if bytes_eq(name, "GetInt".as_bytes()) {
            Ok(CPluginEndpoints::GetInt)
        } else if bytes_eq(name, "SetInt".as_bytes()) {
            Ok(CPluginEndpoints::SetInt)
        } else if bytes_eq(name, "GetFloat".as_bytes()) {
            Ok(CPluginEndpoints::GetFloat)
        } else if bytes_eq(name, "SetFloat".as_bytes()) {
            Ok(CPluginEndpoints::SetFloat)
        } else if bytes_eq(name, "GetString".as_bytes()) {
            Ok(CPluginEndpoints::GetString)
        } else if bytes_eq(name, "SetString".as_bytes()) {
            Ok(CPluginEndpoints::SetString)
        } else if bytes_eq(name, "GetGFFSize".as_bytes()) {
            Ok(CPluginEndpoints::GetGFFSize)
        } else if bytes_eq(name, "GetGFF".as_bytes()) {
            Ok(CPluginEndpoints::GetGFF)
        } else if bytes_eq(name, "SetGFF".as_bytes()) {
            Ok(CPluginEndpoints::SetGFF)
        } else {
            Err(HookError::UnknownHook)
        }
    }
}

} // verus!
