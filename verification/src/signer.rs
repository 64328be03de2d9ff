//! The signing pipeline: which request goes to the browser session next,
//! and what becomes of its answer.
//!
//! The session itself is not here. Its owner performs each request that
//! the pipeline names and hands the answer back.

use vstd::prelude::*;
use vstd::string::StrSliceExecFns;
use vstd::string::StringExecFns;
use vstd::utf8::{encode_utf8, is_ascii_chars, is_ascii_chars_encode_utf8};
use crate::address::{url_base, url_base_of, url_query, url_query_of};
use crate::cipher::{
    aes128_cbc, base64_encode, base64_standard, cbc_encrypt_128, is_base64_text, padded_len,
};
use crate::error::TikTokRsErr;
use crate::navigator::{DeviceReply, Navigator, NAVIGATOR_SCRIPT};
use crate::query::{
    bogus_key, count_key, merge_query, merged_query, overwrite_all, pairs_of, signature_key,
    splittable, written,
};
use crate::query_laws::{
    lemma_key_stands_once, lemma_merge_precedence, lemma_merged_query_holds_each_key_once,
    lemma_split_without_separator, plain,
};
use crate::utils::{generate_verify_fp, is_verify_fp};

verus! {

/// Where the driver of the browser listens.
pub const DRIVER_URL: &'static str = "http://127.0.0.1:9515/";

/// The origin that the session is sent to before any script is injected.
pub const TARGET_URL: &'static str = "https://www.tiktok.com/";

/// The capability under which the options of the browser are passed.
pub const BROWSER_OPTIONS: &'static str = "goog:chromeOptions";

/// The argument that makes the browser run without a window.
pub const HEADLESS_ARGUMENT: &'static str = "--headless";

/// The phone that the browser emulates.
pub const DEVICE_NAME: &'static str = "iPhone 12 Pro";

/// Where the source of the vendor's signature script is kept.
pub const SIGNATURE_SCRIPT_PATH: &'static str = "js/signature.src";

/// Where the source of the vendor's SDK script is kept.
pub const SDK_SCRIPT_PATH: &'static str = "js/webmssdk.src";

/// The script that asks the vendor's code for the signature of an address,
/// its one argument.
pub const SIGNATURE_SCRIPT: &'static str = r#"
            const [url] = arguments;
            return window.byted_acrawler.sign({ url });
        "#;

/// The script that asks the vendor's code for the bogus parameter of a
/// query, its one argument.
pub const BOGUS_SCRIPT: &'static str = r#"
        const [params] = arguments;  
        return window._0x32d649(params);
    "#;

/// The secret of the parameter cipher, `webapp1.0+202106`: it is both the
/// key and the initialization vector.
pub const PASSWORD: [u8; 16] = [119, 101, 98, 97, 112, 112, 49, 46, 48, 43, 50, 48, 50, 49, 48, 54];

/// What is appended to a query before it is encrypted.
pub const ENCRYPTION_MARK: &'static str = "&is_encryption=1";

/// The longest payload, in bytes, that the cipher is given.
pub const MAX_PAYLOAD: usize = usize::MAX / 4;

/// The steps that lead to a session in which requests can be signed, in
/// their order.
#[derive(Debug, Clone, Copy, PartialEq, Eq, Structural)]
pub enum BootStage {
    /// Open a headless session that emulates the phone.
    Connect,
    /// Send the session to the target origin.
    Navigate,
    /// Read the source of the signature script.
    LoadSignatureScript,
    /// Evaluate the signature script in the session.
    InjectSignatureScript,
    /// Read the source of the SDK script.
    LoadSdkScript,
    /// Evaluate the SDK script in the session.
    InjectSdkScript,
}

/// What follows a step of the bootstrap.
#[derive(Debug)]
pub enum BootStep {
    /// The next step is due.
    Continue(BootStage),
    /// Every step succeeded: requests can be signed.
    Ready(Signer),
    /// A step failed: there is no signer.
    Failed(TikTokRsErr),
}

impl BootStage {
    /// The step after this one, if there is one.
    pub open spec fn next(self) -> Option<BootStage> {
        match self {
            BootStage::Connect => Some(BootStage::Navigate),
            BootStage::Navigate => Some(BootStage::LoadSignatureScript),
            BootStage::LoadSignatureScript => Some(BootStage::InjectSignatureScript),
            BootStage::InjectSignatureScript => Some(BootStage::LoadSdkScript),
            BootStage::LoadSdkScript => Some(BootStage::InjectSdkScript),
            BootStage::InjectSdkScript => None,
        }
    }

    /// The error that stands for a failure of this step.
    pub open spec fn failure(self) -> TikTokRsErr {
        match self {
            BootStage::Connect => TikTokRsErr::InitFailure,
            BootStage::Navigate => TikTokRsErr::PrepareFailure,
            BootStage::LoadSignatureScript | BootStage::LoadSdkScript => {
                TikTokRsErr::ScriptLoadFailed
            },
            BootStage::InjectSignatureScript | BootStage::InjectSdkScript => {
                TikTokRsErr::ScriptEvalFailed
            },
        }
    }

    /// The first step.
    pub fn first() -> (stage: BootStage)
        ensures
            stage == BootStage::Connect,
    {
        BootStage::Connect
    }

    /// The file that a loading or injecting step is about.
    pub fn script_path(&self) -> (path: Option<&'static str>)
        ensures
            match *self {
                BootStage::LoadSignatureScript | BootStage::InjectSignatureScript => path matches Some(
                    p,
                ) && p@ == SIGNATURE_SCRIPT_PATH@,
                BootStage::LoadSdkScript | BootStage::InjectSdkScript => path matches Some(p) && p@
                    == SDK_SCRIPT_PATH@,
                _ => path is None,
            },
    {
        match self {
            BootStage::LoadSignatureScript | BootStage::InjectSignatureScript => Some(
                SIGNATURE_SCRIPT_PATH,
            ),
            BootStage::LoadSdkScript | BootStage::InjectSdkScript => Some(SDK_SCRIPT_PATH),
            _ => None,
        }
    }
}

/// How the session answered a script that returns one value.
#[derive(Debug)]
pub enum ScriptReply {
    /// The script returned a value; this is the value as JSON text.
    Returned(String),
    /// The session rejected the script.
    Rejected,
}

/// The payload of a script result: its JSON text without the first and the
/// last character, the quotes of a JSON string.
pub open spec fn clean_string(text: Seq<char>) -> Seq<char> {
    text.subrange(1, text.len() - 1)
}

/// Strips the first and the last character of the JSON text `value`.
pub fn get_clean_string_from_value(value: &str) -> (payload: String)
    requires
        value@.len() >= 2,
    ensures
        payload@ == clean_string(value@),
{
    let n = value.unicode_len();
    value.substring_char(1, n - 1).to_owned()
}

impl ScriptReply {
    /// Whether the answer can be unwrapped: a returned text has at least
    /// the two characters that are stripped.
    pub open spec fn unwrappable(self) -> bool {
        self matches ScriptReply::Returned(text) ==> text@.len() >= 2
    }

    /// The payload of the answer, or the error that a rejection stands for.
    pub open spec fn payload(self) -> Result<Seq<char>, TikTokRsErr> {
        match self {
            ScriptReply::Returned(text) => Ok(clean_string(text@)),
            ScriptReply::Rejected => Err(TikTokRsErr::ScriptEvalFailed),
        }
    }

    /// Whether the answer can be unwrapped.
    pub fn is_unwrappable(&self) -> (b: bool)
        ensures
            b == self.unwrappable(),
    {
        match self {
            ScriptReply::Returned(text) => text.as_str().unicode_len() >= 2,
            ScriptReply::Rejected => true,
        }
    }
}

/// A text, or the error in its place, as character sequence.
pub open spec fn text_of(r: Result<String, TikTokRsErr>) -> Result<Seq<char>, TikTokRsErr> {
    match r {
        Ok(text) => Ok(text@),
        Err(e) => Err(e),
    }
}

/// A query that the parser found, or found missing, as character sequence.
pub open spec fn query_text(found: Option<String>) -> Option<Seq<char>> {
    match found {
        Some(query) => Some(query@),
        None => None,
    }
}

/// The query that can be signed: the address parsed and has a query that
/// is not empty.
pub open spec fn signable(found: Option<Option<Seq<char>>>) -> Option<Seq<char>> {
    match found {
        Some(Some(query)) => if query.len() > 0 {
            Some(query)
        } else {
            None
        },
        _ => None,
    }
}

/// The query of a parsed address, or `InvalidUrlFormat` where the address
/// did not parse, has no query or has an empty one.
pub fn check_url(parsed: Result<Option<String>, url::ParseError>) -> (r: Result<
    String,
    TikTokRsErr,
>)
    ensures
        match parsed {
            Ok(found) => match signable(Some(query_text(found))) {
                Some(query) => r matches Ok(kept) && kept@ == query,
                None => r == Err::<String, TikTokRsErr>(TikTokRsErr::InvalidUrlFormat),
            },
            Err(_) => r == Err::<String, TikTokRsErr>(TikTokRsErr::InvalidUrlFormat),
        },
{
    match parsed {
        Ok(Some(query)) => {
            if query.as_str().unicode_len() == 0 {
                Err(TikTokRsErr::InvalidUrlFormat)
            } else {
                Ok(query)
            }
        },
        Ok(None) => Err(TikTokRsErr::InvalidUrlFormat),
        Err(_) => Err(TikTokRsErr::InvalidUrlFormat),
    }
}

/// How many bytes the ciphertext of the query `params` has: the bytes of
/// the query and the 16 of the encryption mark, filled up to whole blocks
/// of 16 by at least one byte.
pub open spec fn ciphertext_len(params: Seq<char>) -> nat {
    16 * ((encode_utf8(params).len() + 16) / 16 + 1)
}

/// The header value for the query `params`: the base64 text of the query
/// with the encryption mark, encrypted under the password as key and as
/// initialization vector; `CipherEncryptFailure` where the payload is longer
/// than `MAX_PAYLOAD`.
pub open spec fn xttparams_of(params: Seq<char>) -> Result<Seq<char>, TikTokRsErr> {
    let payload = encode_utf8(params + ENCRYPTION_MARK@);
    if payload.len() <= MAX_PAYLOAD {
        Ok(base64_standard(aes128_cbc(PASSWORD@, PASSWORD@, payload)))
    } else {
        Err(TikTokRsErr::CipherEncryptFailure)
    }
}

/// The outcome of one call of the signing pipeline.
#[derive(Debug)]
pub struct SignResult {
    /// The token that was made for this request.
    pub verify_fp: String,
    /// The signature of the address.
    pub signature: String,
    /// The address with both parameters merged into its query.
    pub signed_url: String,
    /// The value for the header `X-Tt-Params`.
    pub xttparams: String,
    /// The bogus parameter of the query.
    pub bogus: String,
    /// The device at the time of the request.
    pub navigator: Navigator,
}

/// A request that waits for the signature of its address.
#[derive(Debug)]
pub struct AwaitingSignature {
    /// The address as it was given.
    pub url: String,
    /// The query of the address.
    pub query: String,
    /// The address with its query emptied.
    pub base: String,
    /// The token that was made for this request.
    pub verify_fp: String,
}

/// A request that has its signature and waits for its bogus parameter.
#[derive(Debug)]
pub struct AwaitingBogus {
    /// The query of the address.
    pub query: String,
    /// The address with its query emptied.
    pub base: String,
    /// The token that was made for this request.
    pub verify_fp: String,
    /// The signature of the address.
    pub signature: String,
}

/// A request that is signed and waits for the device snapshot.
#[derive(Debug)]
pub struct AwaitingDevice {
    /// The token that was made for this request.
    pub verify_fp: String,
    /// The signature of the address.
    pub signature: String,
    /// The address with both parameters merged into its query.
    pub signed_url: String,
    /// The value for the header `X-Tt-Params`.
    pub xttparams: String,
    /// The bogus parameter of the query.
    pub bogus: String,
}

/// The right to sign requests in a session: there is one only after the
/// session was opened, sent to the target origin, and given both vendor
/// scripts.
#[derive(Debug)]
pub struct Signer {
    session: (),
}

impl Signer {
    /// What follows the step `stage` of the bootstrap, given whether the
    /// session carried it out. The signer comes with the success of the
    /// last step; a failure ends the bootstrap with the error of its step.
    pub fn new(stage: BootStage, succeeded: bool) -> (step: BootStep)
        ensures
            !succeeded ==> step == BootStep::Failed(stage.failure()),
            succeeded ==> match stage.next() {
                Some(next) => step == BootStep::Continue(next),
                None => step is Ready,
            },
    {
        if !succeeded {
            return BootStep::Failed(
                match stage {
                    BootStage::Connect => TikTokRsErr::InitFailure,
                    BootStage::Navigate => TikTokRsErr::PrepareFailure,
                    BootStage::LoadSignatureScript | BootStage::LoadSdkScript => {
                        TikTokRsErr::ScriptLoadFailed
                    },
                    BootStage::InjectSignatureScript | BootStage::InjectSdkScript => {
                        TikTokRsErr::ScriptEvalFailed
                    },
                },
            );
        }
        match stage {
            BootStage::Connect => BootStep::Continue(BootStage::Navigate),
            BootStage::Navigate => BootStep::Continue(BootStage::LoadSignatureScript),
            BootStage::LoadSignatureScript => BootStep::Continue(BootStage::InjectSignatureScript),
            BootStage::InjectSignatureScript => BootStep::Continue(BootStage::LoadSdkScript),
            BootStage::LoadSdkScript => BootStep::Continue(BootStage::InjectSdkScript),
            BootStage::InjectSdkScript => BootStep::Ready(Signer { session: () }),
        }
    }

    /// Starts to sign `url`. An address that does not parse as an absolute
    /// URL, or has no query or an empty one, is refused with
    /// `InvalidUrlFormat`, and nothing is asked of the session. Otherwise
    /// the request gets a fresh token and waits for its signature; `None`
    /// where the system clock stands before the Unix epoch.
    pub fn sign(&self, url: &str) -> (r: Option<Result<AwaitingSignature, TikTokRsErr>>)
        ensures
            match signable(url_query_of(url@)) {
                Some(query) => match r {
                    Some(Ok(call)) => call.url@ == url@ && call.base@ == url_base_of(url@)
                        && call.query@ == query && is_verify_fp(call.verify_fp@),
                    Some(Err(_)) => false,
                    None => true,
                },
                None => r == Some(
                    Err::<AwaitingSignature, TikTokRsErr>(TikTokRsErr::InvalidUrlFormat),
                ),
            },
    {
        let query = match check_url(url_query(url)) {
            Ok(query) => query,
            Err(e) => {
                return Some(Err(e));
            },
        };
        let base = match url_base(url) {
            Ok(base) => base,
            Err(_) => {
                return Some(Err(TikTokRsErr::InvalidUrlFormat));
            },
        };
        match generate_verify_fp() {
            Some(verify_fp) => Some(Ok(AwaitingSignature { url: url.to_owned(), query, base, verify_fp })),
            None => None,
        }
    }

    /// The header value for the query `params`.
    pub fn xttparams(params: &str) -> (r: Result<String, TikTokRsErr>)
        ensures
            text_of(r) == xttparams_of(params@),
            r matches Ok(header) ==> is_base64_text(header@, ciphertext_len(params@)),
    {
        let mut payload = params.to_owned();
        payload.append(ENCRYPTION_MARK);
        let bytes = payload.as_str().as_bytes();
        if bytes.len() > MAX_PAYLOAD {
            return Err(TikTokRsErr::CipherEncryptFailure);
        }
        let encrypted = cbc_encrypt_128(&PASSWORD, PASSWORD.as_slice(), bytes);
        proof {
            lemma_ciphertext_len(params@);
        }
        Ok(base64_encode(encrypted.as_slice()))
    }

    /// Takes the answer of the session to the signature script of `call`.
    /// A returned text gives the signature, and the request then waits for
    /// its bogus parameter; a rejection ends the request with
    /// `ScriptEvalFailed`.
    pub fn signature(&self, call: AwaitingSignature, reply: ScriptReply) -> (r: Result<
        AwaitingBogus,
        TikTokRsErr,
    >)
        requires
            reply.unwrappable(),
        ensures
            match reply.payload() {
                Ok(signature) => r matches Ok(next) && next.signature@ == signature && next.query
                    == call.query && next.base == call.base && next.verify_fp == call.verify_fp,
                Err(e) => r == Err::<AwaitingBogus, TikTokRsErr>(e),
            },
    {
        match reply {
            ScriptReply::Returned(text) => Ok(
                AwaitingBogus {
                    query: call.query,
                    base: call.base,
                    verify_fp: call.verify_fp,
                    signature: get_clean_string_from_value(text.as_str()),
                },
            ),
            ScriptReply::Rejected => Err(TikTokRsErr::ScriptEvalFailed),
        }
    }

    /// Takes the answer of the session to the bogus script of `call`. A
    /// returned text gives the bogus parameter; the request is then signed
    /// and waits for the device snapshot. A rejection ends the request with
    /// `ScriptEvalFailed`, a payload that is too long for the cipher with
    /// `CipherEncryptFailure`.
    pub fn bogus(&self, call: AwaitingBogus, reply: ScriptReply) -> (r: Result<
        AwaitingDevice,
        TikTokRsErr,
    >)
        requires
            reply.unwrappable(),
            splittable(call.query@),
        ensures
            match reply.payload() {
                Ok(bogus) => match xttparams_of(merged_query(call.query@, call.signature@, bogus)) {
                    Ok(_) => r matches Ok(next) && call.signed(bogus, next),
                    Err(e) => r == Err::<AwaitingDevice, TikTokRsErr>(e),
                },
                Err(e) => r == Err::<AwaitingDevice, TikTokRsErr>(e),
            },
    {
        let bogus = match reply {
            ScriptReply::Returned(text) => get_clean_string_from_value(text.as_str()),
            ScriptReply::Rejected => {
                return Err(TikTokRsErr::ScriptEvalFailed);
            },
        };
        let params = merge_query(call.query.as_str(), call.signature.as_str(), bogus.as_str());
        let mut signed_url = call.base;
        signed_url.append(params.as_str());
        let xttparams = match Signer::xttparams(params.as_str()) {
            Ok(value) => value,
            Err(e) => {
                return Err(e);
            },
        };
        Ok(
            AwaitingDevice {
                verify_fp: call.verify_fp,
                signature: call.signature,
                signed_url,
                xttparams,
                bogus,
            },
        )
    }

    /// Takes the answer of the session to the snapshot script of `call`. A
    /// captured device completes the result; a value of another shape ends
    /// the request with `NavigationParseError`, a rejection with
    /// `ScriptEvalFailed`.
    pub fn navigator(&self, call: AwaitingDevice, reply: DeviceReply) -> (r: Result<
        SignResult,
        TikTokRsErr,
    >)
        ensures
            match Navigator::of_reply(reply) {
                Ok(navigator) => r matches Ok(result) && result.navigator == navigator
                    && result.verify_fp == call.verify_fp && result.signature == call.signature
                    && result.signed_url == call.signed_url && result.xttparams == call.xttparams
                    && result.bogus == call.bogus,
                Err(e) => r == Err::<SignResult, TikTokRsErr>(e),
            },
    {
        match Navigator::new(reply) {
            Ok(navigator) => Ok(
                SignResult {
                    verify_fp: call.verify_fp,
                    signature: call.signature,
                    signed_url: call.signed_url,
                    xttparams: call.xttparams,
                    bogus: call.bogus,
                    navigator,
                },
            ),
            Err(e) => Err(e),
        }
    }

    /// Gives the signer up. The session is closed by its owner: `accepted`
    /// says whether it let itself be closed.
    pub fn close(self, accepted: bool) -> (r: Result<(), TikTokRsErr>)
        ensures
            r == if accepted {
                Ok::<(), TikTokRsErr>(())
            } else {
                Err::<(), TikTokRsErr>(TikTokRsErr::CloseFailure)
            },
    {
        if accepted {
            Ok(())
        } else {
            Err(TikTokRsErr::CloseFailure)
        }
    }
}

impl AwaitingSignature {
    /// The script that the session is to evaluate for this request.
    pub fn script(&self) -> (script: &'static str)
        ensures
            script@ == SIGNATURE_SCRIPT@,
    {
        SIGNATURE_SCRIPT
    }

    /// The one argument of the script: the address as it was given.
    pub fn argument(&self) -> (argument: &str)
        ensures
            argument@ == self.url@,
    {
        self.url.as_str()
    }
}

impl AwaitingBogus {
    /// The script that the session is to evaluate for this request.
    pub fn script(&self) -> (script: &'static str)
        ensures
            script@ == BOGUS_SCRIPT@,
    {
        BOGUS_SCRIPT
    }

    /// The one argument of the script: the query of the address.
    pub fn argument(&self) -> (argument: &str)
        ensures
            argument@ == self.query@,
    {
        self.query.as_str()
    }

    /// What the request holds once the bogus parameter `bogus` has come:
    /// the query with both parameters merged into it stands behind the
    /// base, with nothing between them, and gives the header value.
    pub open spec fn signed(self, bogus: Seq<char>, next: AwaitingDevice) -> bool {
        let params = merged_query(self.query@, self.signature@, bogus);
        &&& next.verify_fp == self.verify_fp
        &&& next.signature == self.signature
        &&& next.bogus@ == bogus
        &&& next.signed_url@ == self.base@ + params
        &&& xttparams_of(params) == Ok::<Seq<char>, TikTokRsErr>(next.xttparams@)
        &&& is_base64_text(next.xttparams@, ciphertext_len(params))
    }
}

impl AwaitingDevice {
    /// The script that the session is to evaluate for this request.
    pub fn script(&self) -> (script: &'static str)
        ensures
            script@ == NAVIGATOR_SCRIPT@,
    {
        NAVIGATOR_SCRIPT
    }
}

/// The cipher is deterministic: two header values that `Signer::xttparams`
/// returns for one query are the same text, or the same error.
pub proof fn lemma_xttparams_deterministic(
    params: Seq<char>,
    first: Result<String, TikTokRsErr>,
    second: Result<String, TikTokRsErr>,
)
    requires
        text_of(first) == xttparams_of(params),
        text_of(second) == xttparams_of(params),
    ensures
        text_of(first) == text_of(second),
{
}

/// Merge precedence of a signed request. Where the query held one
/// `_signature`, at place `k`, and no `X-Bogus`, the signed address is the
/// base with the merged query behind it, and the merged query, read as
/// pairs, keeps every place: `_signature` stands at place `k` alone and has
/// the new value, and the one `X-Bogus` pair is the last, written as
/// `&X-Bogus=` and the new value at the end of the address. It holds where
/// neither new value holds a `&` or a `=`.
pub proof fn lemma_signed_request_merge_precedence(
    call: AwaitingBogus,
    bogus: Seq<char>,
    next: AwaitingDevice,
    k: int,
)
    requires
        call.signed(bogus, next),
        splittable(call.query@),
        plain(call.signature@),
        plain(bogus),
        count_key(pairs_of(call.query@), signature_key()) == 1,
        count_key(pairs_of(call.query@), bogus_key()) == 0,
        0 <= k < pairs_of(call.query@).len(),
        pairs_of(call.query@)[k].0 == signature_key(),
    ensures
        ({
            let before = pairs_of(call.query@);
            let merged = merged_query(call.query@, call.signature@, bogus);
            let after = pairs_of(merged);
            &&& next.signed_url@ == call.base@ + merged
            &&& merged == written(overwrite_all(before, call.signature@, bogus)) + seq!['&']
                + bogus_key() + seq!['='] + bogus
            &&& splittable(merged)
            &&& after.len() == before.len() + 1
            &&& after[k] == (signature_key(), call.signature@)
            &&& after.last() == (bogus_key(), bogus)
            &&& forall|i: int|
                0 <= i < after.len() && i != k ==> (#[trigger] after[i]).0 != signature_key()
            &&& forall|i: int|
                0 <= i < after.len() - 1 ==> (#[trigger] after[i]).0 != bogus_key()
            &&& forall|i: int|
                0 <= i < before.len() && i != k ==> #[trigger] after[i] == before[i]
        }),
{
    let before = pairs_of(call.query@);
    let merged = merged_query(call.query@, call.signature@, bogus);
    let after = pairs_of(merged);
    lemma_split_without_separator(call.signature@, '=');
    lemma_split_without_separator(bogus, '=');
    lemma_merge_precedence(call.query@, call.signature@, bogus);
    lemma_merged_query_holds_each_key_once(call.query@, call.signature@, bogus);
    lemma_key_stands_once(before, k, signature_key());
    lemma_key_stands_once(after, k, signature_key());
    lemma_key_stands_once(after, after.len() - 1, bogus_key());
}

/// Both keys once in a signed request. Where the query held `_signature`
/// and `X-Bogus` at most once each, the signed address is the base with the
/// merged query behind it, and the merged query, read as pairs, holds each
/// of the two keys exactly once. It holds where neither new value holds
/// a `&`.
pub proof fn lemma_signed_request_holds_each_key_once(
    call: AwaitingBogus,
    bogus: Seq<char>,
    next: AwaitingDevice,
)
    requires
        call.signed(bogus, next),
        splittable(call.query@),
        !call.signature@.contains('&'),
        !bogus.contains('&'),
        count_key(pairs_of(call.query@), signature_key()) <= 1,
        count_key(pairs_of(call.query@), bogus_key()) <= 1,
    ensures
        ({
            let merged = merged_query(call.query@, call.signature@, bogus);
            &&& next.signed_url@ == call.base@ + merged
            &&& splittable(merged)
            &&& count_key(pairs_of(merged), signature_key()) == 1
            &&& count_key(pairs_of(merged), bogus_key()) == 1
        }),
{
    lemma_merged_query_holds_each_key_once(call.query@, call.signature@, bogus);
}

/// The bytes of two texts written one after the other are the bytes of the
/// first followed by the bytes of the second.
pub proof fn lemma_encode_utf8_concat(first: Seq<char>, second: Seq<char>)
    ensures
        encode_utf8(first + second) == encode_utf8(first) + encode_utf8(second),
    decreases first.len(),
{
    if first.len() == 0 {
        assert(first + second =~= second);
        assert(encode_utf8(first) + encode_utf8(second) =~= encode_utf8(second));
    } else {
        lemma_encode_utf8_concat(first.drop_first(), second);
        assert((first + second).drop_first() =~= first.drop_first() + second);
        assert((first + second)[0] == first[0]);
        assert(encode_utf8(first + second) =~= encode_utf8(first) + encode_utf8(second));
    }
}

/// Query and encryption mark, padded as the cipher pads them, have the
/// length that `ciphertext_len` gives.
pub proof fn lemma_ciphertext_len(params: Seq<char>)
    ensures
        encode_utf8(params + ENCRYPTION_MARK@).len() == encode_utf8(params).len() + 16,
        padded_len(encode_utf8(params + ENCRYPTION_MARK@).len()) == ciphertext_len(params),
{
    let mark = ENCRYPTION_MARK@;
    reveal_strlit("&is_encryption=1");
    assert(mark.len() == 16);
    assert(is_ascii_chars(mark));
    is_ascii_chars_encode_utf8(mark);
    lemma_encode_utf8_concat(params, mark);
}

} // verus!
