//! The plugin's state and the requests it serves.
//!
//! A request arrives as an operation name, a text parameter and an integer
//! parameter. The name is matched whole against the names the plugin
//! serves; the parameters are read as that operation needs them. What the
//! plugin cannot do itself (reading files, asking a resolver for an entry)
//! the caller does between two calls.

use vstd::prelude::*;
use vstd::string::StringSliceAdditionalSpecFns;
use vstd::utf8::encode_utf8;
use crate::cplugin::InitInfo;
use crate::error::Failure;
use crate::reference::{decode_param, decoded_param, Reference};
use crate::registry::Registry;
use crate::reply::{float_reply_of, int_reply_of, text_reply_of};
use crate::text::{append, bytes_eq, copy_all, field, nth_field, occurs_at, token_at};

verus! {

/// The plugin: its loaded resolvers and the directories it was told of.
pub struct XPTlk<H> {
    pub resolvers: Registry<H>,
    pub nwnx_path: Vec<u8>,
    pub nwn2_install_path: Vec<u8>,
    pub nwn2_home_path: Vec<u8>,
}

/// What a `load` request asks for: the key to load under and the tables to read.
#[derive(Debug)]
pub struct LoadRequest {
    pub key: Vec<u8>,
    pub base_path: Vec<u8>,
    pub base_f_path: Option<Vec<u8>>,
    pub user_path: Option<Vec<u8>>,
}

/// An integer request, read.
#[derive(Debug)]
pub enum IntRequest {
    Load(LoadRequest),
    IsLoaded { key: Vec<u8> },
    Unload { key: Vec<u8> },
    GetLang { key: Vec<u8>, tlk_index: i32 },
    GetFlags { key: Vec<u8>, reference: Reference },
}

/// A float request, read.
#[derive(Debug)]
pub enum FloatRequest {
    GetSoundLength { key: Vec<u8>, reference: Reference },
}

/// A text request, read.
#[derive(Debug)]
pub enum StrRequest {
    Get { key: Vec<u8>, reference: Reference },
    GetSoundResref { key: Vec<u8>, reference: Reference },
}

/// A field that is missing counts as empty.
pub open spec fn field_or_empty(s: Seq<u8>, n: nat) -> Seq<u8> {
    match field(s, n) {
        Some(f) => f,
        None => Seq::empty(),
    }
}

/// An optional path holds exactly the bytes that are expected of it.
pub open spec fn same_path(path: Option<Vec<u8>>, expected: Option<Seq<u8>>) -> bool {
    match (path, expected) {
        (Some(p), Some(e)) => p@ == e,
        (None, None) => true,
        _ => false,
    }
}

/// The registry after a load under `key` came to an end: the new handle
/// under `key` where the load succeeded, the registry as it was where not.
pub open spec fn after_load<H>(
    resolvers: Map<Seq<u8>, H>,
    key: Seq<u8>,
    loaded: Option<H>,
) -> Map<Seq<u8>, H> {
    match loaded {
        Some(handle) => resolvers.insert(key, handle),
        None => resolvers,
    }
}

/// The reply to a load: 1 where it succeeded, 0 where not.
pub open spec fn load_reply<H>(loaded: Option<H>) -> i32 {
    if loaded.is_some() {
        1i32
    } else {
        0i32
    }
}

/// The reply to `is_loaded`, and to `unload`: 1 where `key` has a resolver, 0 where not.
pub open spec fn loaded_reply<H>(resolvers: Map<Seq<u8>, H>, key: Seq<u8>) -> i32 {
    if resolvers.contains_key(key) {
        1i32
    } else {
        0i32
    }
}

/// The registry after `unload`.
pub open spec fn after_unload<H>(resolvers: Map<Seq<u8>, H>, key: Seq<u8>) -> Map<Seq<u8>, H> {
    resolvers.remove(key)
}

/// The resolver to ask for `key`, or the failure where none is loaded.
pub open spec fn lookup<H>(resolvers: Map<Seq<u8>, H>, key: Seq<u8>) -> Result<H, Failure> {
    if resolvers.contains_key(key) {
        Ok(resolvers[key])
    } else {
        Err(Failure::NoResolver)
    }
}

impl<H> XPTlk<H> {
    /// The registry is well formed.
    pub open spec fn wf(&self) -> bool {
        self.resolvers.wf()
    }

    /// What `path` holds from `i` on, with the directory tokens replaced.
    /// At each position, a token that stands there gives way to its
    /// directory and the reading goes on behind the token; any other byte
    /// is kept. What was put in is never read again.
    pub open spec fn with_tokens_from(&self, path: Seq<u8>, i: int) -> Seq<u8>
        decreases path.len() - i,
    {
        if i < 0 || i >= path.len() {
            Seq::empty()
        } else if occurs_at(path, i, "${NWNX}".spec_bytes()) {
            self.nwnx_path@ + self.with_tokens_from(path, i + "${NWNX}".spec_bytes().len())
        } else if occurs_at(path, i, "${NWN2INST}".spec_bytes()) {
            self.nwn2_install_path@ + self.with_tokens_from(
                path,
                i + "${NWN2INST}".spec_bytes().len(),
            )
        } else if occurs_at(path, i, "${NWN2HOME}".spec_bytes()) {
            self.nwn2_home_path@ + self.with_tokens_from(
                path,
                i + "${NWN2HOME}".spec_bytes().len(),
            )
        } else {
            seq![path[i]] + self.with_tokens_from(path, i + 1)
        }
    }

    /// `path` with each `${NWNX}`, `${NWN2INST}` and `${NWN2HOME}` replaced
    /// by its directory, in one pass over `path` from left to right.
    pub open spec fn with_tokens(&self, path: Seq<u8>) -> Seq<u8> {
        self.with_tokens_from(path, 0)
    }

    /// A path field of a `load` request: not given where the field is
    /// missing or empty, else the field with its tokens replaced.
    pub open spec fn optional_path(&self, given: Option<Seq<u8>>) -> Option<Seq<u8>> {
        match given {
            Some(p) => if p.len() > 0 {
                Some(self.with_tokens(p))
            } else {
                None
            },
            None => None,
        }
    }

    /// `request` is what the parameter of a `load` request asks for: the
    /// fields are the key, the base table, the table of the alternate
    /// variant and the override table, in this order.
    pub open spec fn is_load_request(&self, param1: Seq<u8>, request: LoadRequest) -> bool {
        &&& request.key@ == field_or_empty(param1, 0)
        &&& request.base_path@ == self.with_tokens(field_or_empty(param1, 1))
        &&& same_path(request.base_f_path, self.optional_path(field(param1, 2)))
        &&& same_path(request.user_path, self.optional_path(field(param1, 3)))
    }

    /// `r` is what an integer request reads as.
    pub open spec fn is_int_request(
        &self,
        function: Seq<u8>,
        param1: Seq<u8>,
        param2: i32,
        r: Result<IntRequest, Failure>,
    ) -> bool {
        if function == "load".spec_bytes() {
            match r {
                Ok(IntRequest::Load(request)) => self.is_load_request(param1, request),
                _ => false,
            }
        } else if function == "is_loaded".spec_bytes() {
            match r {
                Ok(IntRequest::IsLoaded { key }) => key@ == param1,
                _ => false,
            }
        } else if function == "unload".spec_bytes() {
            match r {
                Ok(IntRequest::Unload { key }) => key@ == param1,
                _ => false,
            }
        } else if function == "get_lang".spec_bytes() {
            match r {
                Ok(IntRequest::GetLang { key, tlk_index }) => key@ == param1 && tlk_index == param2,
                _ => false,
            }
        } else if function == "get_flags".spec_bytes() {
            match r {
                Ok(IntRequest::GetFlags { key, reference }) => key@ == param1 && reference
                    == decoded_param(param2),
                _ => false,
            }
        } else {
            match r {
                Err(failure) => failure == Failure::UnknownFunction,
                _ => false,
            }
        }
    }

    /// The name by which the plugin identifies itself.
    pub fn get_id() -> (id: &'static str)
        ensures
            id@ == "tlk-rs"@,
    {
        "tlk-rs"
    }

    /// What the plugin is for, in a line.
    pub fn get_info() -> (info: &'static str)
        ensures
            info@ == "Load additional TLK files and resolve strrefs"@,
    {
        "Load additional TLK files and resolve strrefs"
    }

    /// A new plugin: no resolver is loaded, and the directories are those of `info`.
    pub fn new(info: InitInfo) -> (plugin: Self)
        ensures
            plugin.wf(),
            plugin.resolvers@ == Map::<Seq<u8>, H>::empty(),
            plugin.nwnx_path@ == info.nwnx_path.spec_bytes(),
            plugin.nwn2_install_path@ == info.nwn2_install_path.spec_bytes(),
            plugin.nwn2_home_path@ == info.nwn2_home_path.spec_bytes(),
    {
        XPTlk {
            resolvers: Registry::new(),
            nwnx_path: copy_all(info.nwnx_path.as_bytes()),
            nwn2_install_path: copy_all(info.nwn2_install_path.as_bytes()),
            nwn2_home_path: copy_all(info.nwn2_home_path.as_bytes()),
        }
    }

    /// Replaces the directory tokens in `path`, in one pass: text that a
    /// replacement brought in is not searched for tokens.
    pub fn replace_path_tokens(&self, path: &[u8]) -> (out: Vec<u8>)
        ensures
            out@ == self.with_tokens(path@),
    {
        let nwnx = "${NWNX}".as_bytes();
        let install = "${NWN2INST}".as_bytes();
        let home = "${NWN2HOME}".as_bytes();
        let n: usize = path.len();
        let mut out: Vec<u8> = Vec::new();
        let mut i: usize = 0;
        while i < n
            invariant
                n == path@.len(),
                i <= n,
                nwnx@ == "${NWNX}".spec_bytes(),
                install@ == "${NWN2INST}".spec_bytes(),
                home@ == "${NWN2HOME}".spec_bytes(),
                out@ + self.with_tokens_from(path@, i as int) == self.with_tokens(path@),
            decreases n - i,
        {
            let ghost before = out@;
            let ghost rest = self.with_tokens_from(path@, i as int);
            if token_at(path, i, nwnx) {
                append(&mut out, self.nwnx_path.as_slice());
                i += nwnx.len();
            } else if token_at(path, i, install) {
                append(&mut out, self.nwn2_install_path.as_slice());
                i += install.len();
            } else if token_at(path, i, home) {
                append(&mut out, self.nwn2_home_path.as_slice());
                i += home.len();
            } else {
                out.push(path[i]);
                i += 1;
            }
            assert(out@ + self.with_tokens_from(path@, i as int) =~= before + rest);
        }
        assert(out@ + Seq::<u8>::empty() =~= out@);
        out
    }

    fn path_field(&self, param1: &[u8], n: usize) -> (path: Option<Vec<u8>>)
        ensures
            same_path(path, self.optional_path(field(param1@, n as nat))),
    {
        match nth_field(param1, n) {
            Some(p) => if p.len() > 0 {
                Some(self.replace_path_tokens(p.as_slice()))
            } else {
                None
            },
            None => None,
        }
    }

    /// Reads the parameter of a `load` request.
    pub fn load_request(&self, param1: &[u8]) -> (request: LoadRequest)
        ensures
            self.is_load_request(param1@, request),
    {
        let key = match nth_field(param1, 0) {
            Some(k) => k,
            None => Vec::new(),
        };
        let base = match nth_field(param1, 1) {
            Some(p) => p,
            None => Vec::new(),
        };
        let base_path = self.replace_path_tokens(base.as_slice());
        let base_f_path = self.path_field(param1, 2);
        let user_path = self.path_field(param1, 3);
        LoadRequest { key, base_path, base_f_path, user_path }
    }

    /// Reads an integer request. A name that is none of `load`,
    /// `is_loaded`, `unload`, `get_lang` and `get_flags` is an unknown function.
    pub fn int_request(&self, function: &[u8], param1: &[u8], param2: i32) -> (r: Result<
        IntRequest,
        Failure,
    >)
        ensures
            self.is_int_request(function@, param1@, param2, r),
    {
        if bytes_eq(function, "load".as_bytes()) {
            Ok(IntRequest::Load(self.load_request(param1)))
        } else if bytes_eq(function, "is_loaded".as_bytes()) {
            Ok(IntRequest::IsLoaded { key: copy_all(param1) })
        } else if bytes_eq(function, "unload".as_bytes()) {
            Ok(IntRequest::Unload { key: copy_all(param1) })
        } else if bytes_eq(function, "get_lang".as_bytes()) {
            Ok(IntRequest::GetLang { key: copy_all(param1), tlk_index: param2 })
        } else if bytes_eq(function, "get_flags".as_bytes()) {
            Ok(IntRequest::GetFlags { key: copy_all(param1), reference: decode_param(param2) })
        } else {
            Err(Failure::UnknownFunction)
        }
    }

    /// Ends a load under `key`. A resolver that was loaded takes the place
    /// of any resolver under this key, and the reply is 1. A load that
    /// failed changes nothing, and the reply is 0.
    pub fn finish_load(&mut self, key: Vec<u8>, loaded: Option<H>) -> (reply: i32)
        requires
            old(self).wf(),
        ensures
            final(self).wf(),
            final(self).resolvers@ == after_load(old(self).resolvers@, key@, loaded),
            reply == load_reply(loaded),
            final(self).nwnx_path == old(self).nwnx_path,
            final(self).nwn2_install_path == old(self).nwn2_install_path,
            final(self).nwn2_home_path == old(self).nwn2_home_path,
    {
        match loaded {
            Some(handle) => {
                let _ = self.resolvers.insert(key, handle);
                1
            },
            None => 0,
        }
    }

    /// Whether a resolver is loaded under `key`: 1 or 0.
    pub fn is_loaded(&self, key: &[u8]) -> (reply: i32)
        requires
            self.wf(),
        ensures
            reply == loaded_reply(self.resolvers@, key@),
    {
        if self.resolvers.contains_key(key) {
            1
        } else {
            0
        }
    }

    /// Removes and releases the resolver under `key`. The reply is 1 where
    /// there was one, 0 where not.
    pub fn unload(&mut self, key: &[u8]) -> (reply: i32)
        requires
            old(self).wf(),
        ensures
            final(self).wf(),
            final(self).resolvers@ == after_unload(old(self).resolvers@, key@),
            reply == loaded_reply(old(self).resolvers@, key@),
            final(self).nwnx_path == old(self).nwnx_path,
            final(self).nwn2_install_path == old(self).nwn2_install_path,
            final(self).nwn2_home_path == old(self).nwn2_home_path,
    {
        match self.resolvers.remove(key) {
            Some(_) => 1,
            None => 0,
        }
    }

    /// The resolver to ask for `key`. That none is loaded is a failure,
    /// which `Failure::error` describes with the key of the request.
    pub fn resolver(&self, key: &[u8]) -> (r: Result<&H, Failure>)
        requires
            self.wf(),
        ensures
            match r {
                Ok(handle) => lookup(self.resolvers@, key@) == Ok::<H, Failure>(*handle),
                Err(failure) => lookup(self.resolvers@, key@) == Err::<H, Failure>(failure),
            },
    {
        match self.resolvers.get(key) {
            Some(handle) => Ok(handle),
            None => Err(Failure::NoResolver),
        }
    }
}

/// `r` is what a float request reads as.
pub open spec fn is_float_request(
    function: Seq<u8>,
    param1: Seq<u8>,
    param2: i32,
    r: Result<FloatRequest, Failure>,
) -> bool {
    if function == "get_sound_length".spec_bytes() {
        match r {
            Ok(FloatRequest::GetSoundLength { key, reference }) => key@ == param1 && reference
                == decoded_param(param2),
            _ => false,
        }
    } else {
        match r {
            Err(failure) => failure == Failure::UnknownFunction,
            _ => false,
        }
    }
}

/// `r` is what a text request reads as.
pub open spec fn is_str_request(
    function: Seq<u8>,
    param1: Seq<u8>,
    param2: i32,
    r: Result<StrRequest, Failure>,
) -> bool {
    if function == "get".spec_bytes() {
        match r {
            Ok(StrRequest::Get { key, reference }) => key@ == param1 && reference == decoded_param(
                param2,
            ),
            _ => false,
        }
    } else if function == "get_sound_resref".spec_bytes() {
        match r {
            Ok(StrRequest::GetSoundResref { key, reference }) => key@ == param1 && reference
                == decoded_param(param2),
            _ => false,
        }
    } else {
        match r {
            Err(failure) => failure == Failure::UnknownFunction,
            _ => false,
        }
    }
}

/// Reads a float request. A name other than `get_sound_length` is an unknown function.
pub fn float_request(function: &[u8], param1: &[u8], param2: i32) -> (r: Result<
    FloatRequest,
    Failure,
>)
    ensures
        is_float_request(function@, param1@, param2, r),
{
    if bytes_eq(function, "get_sound_length".as_bytes()) {
        Ok(FloatRequest::GetSoundLength { key: copy_all(param1), reference: decode_param(param2) })
    } else {
        Err(Failure::UnknownFunction)
    }
}

/// Reads a text request. A name that is neither `get` nor
/// `get_sound_resref` is an unknown function.
pub fn str_request(function: &[u8], param1: &[u8], param2: i32) -> (r: Result<StrRequest, Failure>)
    ensures
        is_str_request(function@, param1@, param2, r),
{
    if bytes_eq(function, "get".as_bytes()) {
        Ok(StrRequest::Get { key: copy_all(param1), reference: decode_param(param2) })
    } else if bytes_eq(function, "get_sound_resref".as_bytes()) {
        Ok(StrRequest::GetSoundResref { key: copy_all(param1), reference: decode_param(param2) })
    } else {
        Err(Failure::UnknownFunction)
    }
}

/// After a load that succeeded, the key is loaded, whatever stood in the registry before.
pub proof fn load_then_is_loaded<H>(resolvers: Map<Seq<u8>, H>, key: Seq<u8>, handle: H)
    ensures
        load_reply(Some(handle)) == 1,
        loaded_reply(after_load(resolvers, key, Some(handle)), key) == 1,
        lookup(after_load(resolvers, key, Some(handle)), key) == Ok::<H, Failure>(handle),
{
}

/// After an unload, the key is not loaded, whether it was loaded before or not.
pub proof fn unload_then_not_loaded<H>(resolvers: Map<Seq<u8>, H>, key: Seq<u8>)
    ensures
        loaded_reply(after_unload(resolvers, key), key) == 0,
        lookup(after_unload(resolvers, key), key) == Err::<H, Failure>(Failure::NoResolver),
{
}

/// Unloading a key that is not loaded replies 0 and changes nothing.
pub proof fn unload_of_missing_key<H>(resolvers: Map<Seq<u8>, H>, key: Seq<u8>)
    requires
        !resolvers.contains_key(key),
    ensures
        loaded_reply(resolvers, key) == 0,
        after_unload(resolvers, key) == resolvers,
{
    assert(resolvers.remove(key) =~= resolvers);
}

/// A load that failed replies 0 and leaves the registry as it was: what
/// was loaded under the key before is still there.
pub proof fn failed_load_changes_nothing<H>(resolvers: Map<Seq<u8>, H>, key: Seq<u8>)
    ensures
        load_reply(None::<H>) == 0,
        after_load(resolvers, key, None) == resolvers,
        lookup(after_load(resolvers, key, None), key) == lookup(resolvers, key),
{
}

/// A load or an unload under one key leaves every other key as it was.
pub proof fn other_keys_are_kept<H>(
    resolvers: Map<Seq<u8>, H>,
    key: Seq<u8>,
    loaded: Option<H>,
    other: Seq<u8>,
)
    requires
        other != key,
    ensures
        lookup(after_load(resolvers, key, loaded), other) == lookup(resolvers, other),
        lookup(after_unload(resolvers, key), other) == lookup(resolvers, other),
{
}

/// A lookup under a key that is not loaded fails, and the failure reaches
/// the host as -1 for an integer, as the bits of -1.0 for a float, and as
/// the empty text in a buffer of two bytes or more. A shorter buffer stays
/// as it was. The description of the failure names the key.
pub proof fn missing_key_gives_failure_values<H>(
    resolvers: Map<Seq<u8>, H>,
    function: Seq<char>,
    key: Seq<char>,
    param2: i32,
    buffer: Seq<u8>,
)
    requires
        !resolvers.contains_key(encode_utf8(key)),
    ensures
        lookup(resolvers, encode_utf8(key)) == Err::<H, Failure>(Failure::NoResolver),
        Failure::NoResolver.text(function, key, param2) == "No resolver with key: "@ + key,
        int_reply_of(Err(Failure::NoResolver)) == -1,
        float_reply_of(Err(Failure::NoResolver)) == 0xBF80_0000u32,
        text_reply_of(buffer, Err(Failure::NoResolver)).len() == buffer.len(),
        buffer.len() > 1 ==> text_reply_of(buffer, Err(Failure::NoResolver))[0] == 0u8,
        buffer.len() <= 1 ==> text_reply_of(buffer, Err(Failure::NoResolver)) == buffer,
        forall|j: int|
            1 <= j < buffer.len() ==> text_reply_of(buffer, Err(Failure::NoResolver))[j]
                == buffer[j],
{
}

} // verus!
