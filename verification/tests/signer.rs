use tiktok_rs::error::TikTokRsErr;
use tiktok_rs::navigator::{DeviceReply, Navigator, NAVIGATOR_SCRIPT};
use tiktok_rs::signer::{
    check_url, get_clean_string_from_value, AwaitingBogus, AwaitingDevice, AwaitingSignature,
    BootStage, BootStep, ScriptReply, SignResult, Signer, BOGUS_SCRIPT, BROWSER_OPTIONS,
    DEVICE_NAME, DRIVER_URL, ENCRYPTION_MARK, HEADLESS_ARGUMENT, PASSWORD, SDK_SCRIPT_PATH,
    SIGNATURE_SCRIPT, SIGNATURE_SCRIPT_PATH, TARGET_URL,
};

const KNOWN_PARAMS: &str = "app_language=en&app_name=tiktok_web&battery_info=1&browser_language=en-US&browser_name=Mozilla&browser_online=trupe&browser_platform=MacIntel";

const KNOWN_HEADER: &str = "Uc+BC1uJ7kP5X5QLp1d2k267gp7z2V4F2eC+a9DmvNBBm6BzQNeaMCsDF30G28nJ3gFMYQTjZDC49E6YmTudEFuI+0K+5PADw0No1f5FsmfblUkSpoWL6/OEA6this7BkHt5CKFx68tg0vHIKhOaqrD0GRoBsQX6qH4Uf2Hf9bKG9+HTxYaBgRxYv2EtXXjrrx6QqyuE2eozik2REOOMwA==";

fn signer() -> Signer {
    match Signer::new(BootStage::InjectSdkScript, true) {
        BootStep::Ready(signer) => signer,
        other => panic!("no signer: {:?}", other),
    }
}

fn device() -> Navigator {
    Navigator {
        device_scale_factor: 3,
        user_agent: "Mozilla/5.0 (iPhone)".to_string(),
        browser_language: "en-US".to_string(),
        browser_platform: "iPhone".to_string(),
        browser_name: "Mozilla".to_string(),
        browser_version: "5.0 (iPhone)".to_string(),
    }
}

fn returned(text: &str) -> ScriptReply {
    ScriptReply::Returned(text.to_string())
}

fn begin(url: &str) -> AwaitingSignature {
    signer().sign(url).expect("the clock stands after the epoch").expect("the address has a query")
}

fn refused(url: &str) -> TikTokRsErr {
    signer().sign(url).expect("the clock is not read").expect_err("the address is refused")
}

fn signed(url: &str, signature: &str, bogus: &str) -> AwaitingDevice {
    let signer = signer();
    let call = begin(url);
    let call = signer.signature(call, returned(signature)).expect("signature");
    signer.bogus(call, returned(bogus)).expect("bogus")
}

#[test]
fn creates_valid_xttparams_header() {
    let test_params = "app_language=en&app_name=tiktok_web&battery_info=1&browser_language=en-US&browser_name=Mozilla&browser_online=trupe&browser_platform=MacIntel";
    let xttparams = Signer::xttparams(test_params).unwrap();
    assert_eq!(xttparams, "Uc+BC1uJ7kP5X5QLp1d2k267gp7z2V4F2eC+a9DmvNBBm6BzQNeaMCsDF30G28nJ3gFMYQTjZDC49E6YmTudEFuI+0K+5PADw0No1f5FsmfblUkSpoWL6/OEA6this7BkHt5CKFx68tg0vHIKhOaqrD0GRoBsQX6qH4Uf2Hf9bKG9+HTxYaBgRxYv2EtXXjrrx6QqyuE2eozik2REOOMwA==");
}

#[test]
fn xttparams_is_the_same_for_the_same_query() {
    let first = Signer::xttparams("a=1&b=2").unwrap();
    let second = Signer::xttparams("a=1&b=2").unwrap();
    assert_eq!(first, second);
    assert_ne!(first, Signer::xttparams("a=1&b=3").unwrap());
}

#[test]
fn xttparams_of_the_empty_query_is_two_blocks() {
    // the mark alone fills one block, and a block of padding follows
    let header = Signer::xttparams("").unwrap();
    assert_eq!(header.len(), 44);
    assert!(header.ends_with('='));
}

#[test]
fn xttparams_length_follows_the_padded_payload() {
    // 15 characters and the mark: 31 bytes, padded to 32, 44 characters of text
    assert_eq!(Signer::xttparams("aaaaaaaaaaaaaaa").unwrap().len(), 44);
    // one more: 32 bytes, padded to 48, 64 characters of text
    assert_eq!(Signer::xttparams("aaaaaaaaaaaaaaaa").unwrap().len(), 64);
}

#[test]
fn password_is_the_documented_secret() {
    assert_eq!(&PASSWORD, b"webapp1.0+202106");
    assert_eq!(ENCRYPTION_MARK, "&is_encryption=1");
}

#[test]
fn session_is_set_up_as_documented() {
    assert_eq!(DRIVER_URL, "http://127.0.0.1:9515/");
    assert_eq!(TARGET_URL, "https://www.tiktok.com/");
    assert_eq!(BROWSER_OPTIONS, "goog:chromeOptions");
    assert_eq!(HEADLESS_ARGUMENT, "--headless");
    assert_eq!(DEVICE_NAME, "iPhone 12 Pro");
    assert_eq!(SIGNATURE_SCRIPT_PATH, "js/signature.src");
    assert_eq!(SDK_SCRIPT_PATH, "js/webmssdk.src");
}

#[test]
fn scripts_call_the_vendor_functions() {
    assert!(SIGNATURE_SCRIPT.contains("const [url] = arguments;"));
    assert!(SIGNATURE_SCRIPT.contains("return window.byted_acrawler.sign({ url });"));
    assert!(BOGUS_SCRIPT.contains("const [params] = arguments;"));
    assert!(BOGUS_SCRIPT.contains("return window._0x32d649(params);"));
    for attribute in [
        "device_scale_factor: window.devicePixelRatio,",
        "user_agent: window.navigator.userAgent,",
        "browser_language: window.navigator.language,",
        "browser_platform: window.navigator.platform,",
        "browser_name: window.navigator.appCodeName,",
        "browser_version: window.navigator.appVersion,",
    ] {
        assert!(NAVIGATOR_SCRIPT.contains(attribute));
    }
}

#[test]
fn bootstrap_runs_its_steps_in_order() {
    let mut stage = BootStage::first();
    let mut seen = vec![stage];
    loop {
        match Signer::new(stage, true) {
            BootStep::Continue(next) => {
                stage = next;
                seen.push(next);
            }
            BootStep::Ready(_) => break,
            BootStep::Failed(e) => panic!("failed with {:?}", e),
        }
    }
    assert_eq!(seen, vec![
        BootStage::Connect,
        BootStage::Navigate,
        BootStage::LoadSignatureScript,
        BootStage::InjectSignatureScript,
        BootStage::LoadSdkScript,
        BootStage::InjectSdkScript,
    ]);
}

#[test]
fn bootstrap_fails_with_the_error_of_its_step() {
    let expected = [
        (BootStage::Connect, TikTokRsErr::InitFailure),
        (BootStage::Navigate, TikTokRsErr::PrepareFailure),
        (BootStage::LoadSignatureScript, TikTokRsErr::ScriptLoadFailed),
        (BootStage::InjectSignatureScript, TikTokRsErr::ScriptEvalFailed),
        (BootStage::LoadSdkScript, TikTokRsErr::ScriptLoadFailed),
        (BootStage::InjectSdkScript, TikTokRsErr::ScriptEvalFailed),
    ];
    for (stage, error) in expected {
        match Signer::new(stage, false) {
            BootStep::Failed(e) => assert_eq!(e, error),
            other => panic!("{:?} went on: {:?}", stage, other),
        }
    }
}

#[test]
fn bootstrap_names_the_script_of_a_step() {
    assert_eq!(BootStage::Connect.script_path(), None);
    assert_eq!(BootStage::Navigate.script_path(), None);
    assert_eq!(BootStage::LoadSignatureScript.script_path(), Some("js/signature.src"));
    assert_eq!(BootStage::InjectSignatureScript.script_path(), Some("js/signature.src"));
    assert_eq!(BootStage::LoadSdkScript.script_path(), Some("js/webmssdk.src"));
    assert_eq!(BootStage::InjectSdkScript.script_path(), Some("js/webmssdk.src"));
}

#[test]
fn close_follows_the_session() {
    assert_eq!(signer().close(true), Ok(()));
    assert_eq!(signer().close(false), Err(TikTokRsErr::CloseFailure));
}

#[test]
fn clean_string_strips_one_character_at_each_end() {
    assert_eq!(get_clean_string_from_value("\"abc\""), "abc");
    assert_eq!(get_clean_string_from_value("\"\""), "");
    assert_eq!(get_clean_string_from_value("\"\"quoted\"\""), "\"quoted\"");
    assert_eq!(get_clean_string_from_value("null"), "ul");
    assert_eq!(get_clean_string_from_value("\"a\\\"b\""), "a\\\"b");
    assert_eq!(get_clean_string_from_value("\"é\""), "é");
}

#[test]
fn reply_is_unwrappable_from_two_characters_on() {
    assert!(returned("\"\"").is_unwrappable());
    assert!(returned("éé").is_unwrappable());
    assert!(!returned("3").is_unwrappable());
    assert!(!returned("é").is_unwrappable());
    assert!(!returned("").is_unwrappable());
    assert!(ScriptReply::Rejected.is_unwrappable());
}

#[test]
fn navigator_follows_the_reply() {
    let captured = Navigator::new(DeviceReply::Captured(device())).expect("captured");
    assert_eq!(captured.device_scale_factor, 3);
    assert_eq!(captured.user_agent, "Mozilla/5.0 (iPhone)");
    assert_eq!(captured.browser_language, "en-US");
    assert_eq!(captured.browser_platform, "iPhone");
    assert_eq!(captured.browser_name, "Mozilla");
    assert_eq!(captured.browser_version, "5.0 (iPhone)");
    assert_eq!(Navigator::new(DeviceReply::Mismatched).err(), Some(TikTokRsErr::NavigationParseError));
    assert_eq!(Navigator::new(DeviceReply::Rejected).err(), Some(TikTokRsErr::ScriptEvalFailed));
}

#[test]
fn check_url_keeps_a_query_that_is_not_empty() {
    assert_eq!(check_url(Ok(Some("a=1".to_string()))), Ok("a=1".to_string()));
    assert_eq!(check_url(Ok(Some("a".to_string()))), Ok("a".to_string()));
}

#[test]
fn check_url_refuses_a_missing_or_empty_query() {
    assert_eq!(check_url(Ok(None)), Err(TikTokRsErr::InvalidUrlFormat));
    assert_eq!(check_url(Ok(Some(String::new()))), Err(TikTokRsErr::InvalidUrlFormat));
}

#[test]
fn sign_refuses_a_long_address_without_query() {
    let address = format!("https://www.tiktok.com/{}", "a".repeat(1 << 20));
    assert_eq!(refused(&address), TikTokRsErr::InvalidUrlFormat);
}

#[test]
fn check_url_maps_a_parse_error() {
    let error = url::Url::parse("no address").expect_err("does not parse");
    assert_eq!(check_url(Err(error)), Err(TikTokRsErr::InvalidUrlFormat));
}

#[test]
fn sign_refuses_an_address_without_query() {
    assert_eq!(refused("https://www.tiktok.com/api/recommend/item_list/"), TikTokRsErr::InvalidUrlFormat);
    assert_eq!(refused("https://www.tiktok.com/#a=1"), TikTokRsErr::InvalidUrlFormat);
}

#[test]
fn sign_refuses_an_address_with_empty_query() {
    assert_eq!(refused("https://www.tiktok.com/api/?"), TikTokRsErr::InvalidUrlFormat);
    assert_eq!(refused("https://www.tiktok.com/api/?#a=1"), TikTokRsErr::InvalidUrlFormat);
}

#[test]
fn sign_refuses_what_is_no_absolute_url() {
    assert_eq!(refused(""), TikTokRsErr::InvalidUrlFormat);
    assert_eq!(refused("no address"), TikTokRsErr::InvalidUrlFormat);
    assert_eq!(refused("/api/recommend?a=1"), TikTokRsErr::InvalidUrlFormat);
    assert_eq!(refused("www.tiktok.com/api?a=1"), TikTokRsErr::InvalidUrlFormat);
    assert_eq!(refused("://www.tiktok.com/api?a=1"), TikTokRsErr::InvalidUrlFormat);
    assert_eq!(refused("1https://www.tiktok.com/api?a=1"), TikTokRsErr::InvalidUrlFormat);
}

#[test]
fn sign_takes_base_and_query_from_the_parser() {
    let call = begin("https://www.tiktok.com/api/item/?aid=1988&app_name=tiktok_web");
    assert_eq!(call.url, "https://www.tiktok.com/api/item/?aid=1988&app_name=tiktok_web");
    assert_eq!(call.base, "https://www.tiktok.com/api/item/?");
    assert_eq!(call.query, "aid=1988&app_name=tiktok_web");
    assert!(call.verify_fp.starts_with("verify_"));
    assert_eq!(call.script(), SIGNATURE_SCRIPT);
    assert_eq!(call.argument(), "https://www.tiktok.com/api/item/?aid=1988&app_name=tiktok_web");
}

#[test]
fn sign_takes_the_address_as_the_parser_writes_it() {
    let call = begin("HTTPS://WWW.TikTok.com:443/a/../b?q=é d#frag");
    assert_eq!(call.url, "HTTPS://WWW.TikTok.com:443/a/../b?q=é d#frag");
    assert_eq!(call.base, "https://www.tiktok.com/b?#frag");
    assert_eq!(call.query, "q=%C3%A9%20d");
}

#[test]
fn signature_reply_leads_to_the_bogus_call() {
    let call = begin("https://www.tiktok.com/api/item/?aid=1988");
    let token = call.verify_fp.clone();
    let next: AwaitingBogus = signer().signature(call, returned("\"SIG\"")).expect("signature");
    assert_eq!(next.signature, "SIG");
    assert_eq!(next.query, "aid=1988");
    assert_eq!(next.base, "https://www.tiktok.com/api/item/?");
    assert_eq!(next.verify_fp, token);
    assert_eq!(next.script(), BOGUS_SCRIPT);
    assert_eq!(next.argument(), "aid=1988");
}

#[test]
fn rejected_signature_script_ends_the_request() {
    let call = begin("https://www.tiktok.com/api/item/?aid=1988");
    assert_eq!(signer().signature(call, ScriptReply::Rejected).err(), Some(TikTokRsErr::ScriptEvalFailed));
}

#[test]
fn rejected_bogus_script_ends_the_request() {
    let signer = signer();
    let call = begin("https://www.tiktok.com/api/item/?aid=1988");
    let call = signer.signature(call, returned("\"SIG\"")).expect("signature");
    assert_eq!(signer.bogus(call, ScriptReply::Rejected).err(), Some(TikTokRsErr::ScriptEvalFailed));
}

#[test]
fn bogus_reply_signs_the_request() {
    let next = signed("https://www.tiktok.com/api/item/?aid=1988&_signature=OLD", "\"NEW\"", "\"BOG\"");
    assert_eq!(next.signature, "NEW");
    assert_eq!(next.bogus, "BOG");
    assert_eq!(next.signed_url, "https://www.tiktok.com/api/item/?aid=1988&_signature=NEW&X-Bogus=BOG");
    assert_eq!(next.xttparams, Signer::xttparams("aid=1988&_signature=NEW&X-Bogus=BOG").unwrap());
    assert_eq!(next.script(), NAVIGATOR_SCRIPT);
}

#[test]
fn signed_url_is_base_and_query_with_nothing_between() {
    let next = signed("https://www.tiktok.com/api?a=1#frag", "\"SIG\"", "\"BOG\"");
    assert_eq!(next.signed_url, "https://www.tiktok.com/api?#fraga=1&X-Bogus=BOG&_signature=SIG");
}

#[test]
fn header_is_made_of_the_merged_query() {
    let next = signed(&format!("https://www.tiktok.com/api/?{}&_signature=a&X-Bogus=b", KNOWN_PARAMS), "\"a\"", "\"b\"");
    assert_eq!(next.xttparams, Signer::xttparams(&format!("{}&_signature=a&X-Bogus=b", KNOWN_PARAMS)).unwrap());
    assert_ne!(next.xttparams, KNOWN_HEADER);
}

#[test]
fn device_reply_completes_the_result() {
    let next = signed("https://www.tiktok.com/api/item/?aid=1988", "\"SIG\"", "\"BOG\"");
    let token = next.verify_fp.clone();
    let header = next.xttparams.clone();
    let result: SignResult = signer().navigator(next, DeviceReply::Captured(device())).expect("device");
    assert_eq!(result.verify_fp, token);
    assert_eq!(result.signature, "SIG");
    assert_eq!(result.bogus, "BOG");
    assert_eq!(result.signed_url, "https://www.tiktok.com/api/item/?aid=1988&X-Bogus=BOG&_signature=SIG");
    assert_eq!(result.xttparams, header);
    assert_eq!(result.navigator.device_scale_factor, 3);
    assert_eq!(result.navigator.browser_platform, "iPhone");
}

#[test]
fn device_of_another_shape_ends_the_request() {
    let next = signed("https://www.tiktok.com/api/item/?aid=1988", "\"SIG\"", "\"BOG\"");
    assert_eq!(signer().navigator(next, DeviceReply::Mismatched).err(), Some(TikTokRsErr::NavigationParseError));
}

#[test]
fn rejected_device_script_ends_the_request() {
    let next = signed("https://www.tiktok.com/api/item/?aid=1988", "\"SIG\"", "\"BOG\"");
    assert_eq!(signer().navigator(next, DeviceReply::Rejected).err(), Some(TikTokRsErr::ScriptEvalFailed));
}

#[test]
fn signs_the_recommend_address() {
    let tiktok_api_url = "https://www.tiktok.com/api/recommend/item_list/?aid=1988&app_language=en&app_name=tiktok_web&battery_info=1&browser_language=en-US&browser_name=Mozilla&browser_online=true&browser_platform=MacIntel&browser_version=5.0%20%28Macintosh%3B%20Intel%20Mac%20OS%20X%2010_15_7%29%20AppleWebKit%2F537.36%20%28KHTML%2C%20like%20Gecko%29%20Chrome%2F110.0.0.0%20Safari%2F537.36&channel=tiktok_web&clientABVersions=70508271%2C70830115%2C70894022%2C70941820%2C70947390%2C70951149%2C70971375%2C70405643%2C70455309&cookie_enabled=true&count=30&device_id=7197304278209578498&device_platform=web_pc&focus_state=false&from_page=fyp&history_len=2&is_fullscreen=false&is_page_visible=true&language=en&os=mac&priority_region=&referer=&region=IL&screen_height=1440&screen_width=3440&tz_name=Asia%2FJerusalem&webcast_language=en&msToken=6lqYlGuSAUoCAvYEgdMn_vfeTuKBES8CU238g7keL3B4LkXC7RFU1h4KZSeuFIL89EjroMTeBM2cqup5sDa0-TlXizeV84YW5AirQ_dDEVru6GfzqXyHJhBl2zVWVkm4UvnEC2aq25e5t9E7&X-Bogus=DFSzswVY5QiANa8UShHLcbJ68sbN&_signature=_02B4Z6wo00001T0JBSwAAIDDOipluJXox8U9CQGAACyu33";
    let signer = signer();
    let call = begin(tiktok_api_url);
    assert_eq!(call.base, "https://www.tiktok.com/api/recommend/item_list/?");
    let call = signer.signature(call, returned("\"_02B4Z6wo00001newSignature\"")).expect("signature");
    let next = signer.bogus(call, returned("\"DFSzswVYnewBogus\"")).expect("bogus");
    let signed_url = signer.navigator(next, DeviceReply::Captured(device()));
    assert!(signed_url.is_ok());
    let result = signed_url.unwrap();
    let expected = tiktok_api_url
        .replace("DFSzswVY5QiANa8UShHLcbJ68sbN", "DFSzswVYnewBogus")
        .replace("_02B4Z6wo00001T0JBSwAAIDDOipluJXox8U9CQGAACyu33", "_02B4Z6wo00001newSignature");
    assert_eq!(result.signed_url, expected);
    let query = url::Url::parse(&result.signed_url).expect("parses").query().expect("query").to_string();
    let pairs = tiktok_rs::query::query_pairs(&query).expect("pairs");
    assert_eq!(pairs.iter().filter(|pair| pair.0 == "_signature").count(), 1);
    assert_eq!(pairs.iter().filter(|pair| pair.0 == "X-Bogus").count(), 1);
}

#[test]
fn header_is_padded_base64_of_whole_blocks() {
    let alphabet = "ABCDEFGHIJKLMNOPQRSTUVWXYZabcdefghijklmnopqrstuvwxyz0123456789+/";
    for n in 0..70usize {
        let header = Signer::xttparams(&"q".repeat(n)).unwrap();
        let bytes = 16 * ((n + 16) / 16 + 1);
        assert_eq!(header.len(), (bytes + 2) / 3 * 4);
        let padding = (3 - bytes % 3) % 3;
        let (digits, fill) = header.split_at(header.len() - padding);
        assert!(digits.chars().all(|c| alphabet.contains(c)));
        assert!(fill.chars().all(|c| c == '='));
    }
}

#[test]
fn header_length_counts_bytes_not_characters() {
    // fifteen characters of two bytes each: 30 bytes and the mark, padded to 48
    assert_eq!(Signer::xttparams(&"é".repeat(15)).unwrap().len(), 64);
}
