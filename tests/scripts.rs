use le_chat::escape::escape_message;
use le_chat::scripts::{
    get_connectivity_js, get_custom_titlebar_js, get_hide_titlebar_overlap_js,
    get_inject_message_js, get_response_watcher_js, CHAT_URL, INJECT_MESSAGE_JS_HEAD,
    INJECT_MESSAGE_JS_TAIL,
};
use le_chat::settings::AppSettings;

#[test]
fn test_app_settings_default() {
    let settings = AppSettings::default();
    assert!(settings.new_chat_default, "new_chat_default should be true");
    assert!(
        settings.notifications_enabled,
        "notifications_enabled should be true"
    );
}

#[test]
fn test_inject_message_js_simple() {
    let js = get_inject_message_js("Hello world");
    assert!(js.contains("Hello world"));
    assert!(js.contains("emitResult"));
    assert!(js.contains("findTextarea"));
}

#[test]
fn test_inject_message_js_escapes_backticks() {
    let js = get_inject_message_js("code `inline` here");
    assert!(js.contains(r"\`inline\`"));
    assert!(!js.contains("code `inline` here"));
}

#[test]
fn test_inject_message_js_escapes_backslashes() {
    let js = get_inject_message_js(r"path\to\file");
    assert!(js.contains(r"path\\to\\file"));
}

#[test]
fn test_inject_message_js_escapes_dollar_signs() {
    let js = get_inject_message_js("cost is $100");
    assert!(js.contains(r"cost is \$100"));
}

#[test]
fn test_inject_message_js_escapes_newlines() {
    let js = get_inject_message_js("line1\nline2\rline3");
    assert!(js.contains(r"line1\nline2\rline3"));
}

#[test]
fn test_inject_message_js_handles_empty_string() {
    let js = get_inject_message_js("");
    assert!(js.contains("const message = ``"));
}

#[test]
fn test_inject_message_js_complex_input() {
    let js = get_inject_message_js("Explain `async/await` in JS.\nThe cost is $50\\per unit.");
    assert!(js.contains(r"\`async/await\`"));
    assert!(js.contains(r"\$50"));
    assert!(js.contains(r"\\per"));
    assert!(js.contains(r"\n"));
}

#[test]
fn test_response_watcher_js_is_valid() {
    let js = get_response_watcher_js();
    assert!(!js.is_empty());
    assert!(js.contains("__leChatResponseWatcher"));
    assert!(js.contains("response-complete"));
    assert!(js.contains("isStreaming"));
}

#[test]
fn test_hide_titlebar_overlap_js_is_valid() {
    let js = get_hide_titlebar_overlap_js();
    assert!(!js.is_empty());
    assert!(js.contains("le-chat-custom-styles"));
    assert!(js.contains("data-sidebar"));
    assert!(js.contains("MutationObserver"));
}

#[test]
fn test_custom_titlebar_js_is_valid() {
    let js = get_custom_titlebar_js();
    assert!(!js.is_empty());
    assert!(js.contains("le-chat-custom-titlebar"));
    assert!(js.contains("data-tauri-drag-region"));
    assert!(js.contains("lc-tb-minimize"));
    assert!(js.contains("lc-tb-maximize"));
    assert!(js.contains("lc-tb-close"));
}

#[test]
fn test_chat_url_constant() {
    assert_eq!(CHAT_URL, "https://chat.mistral.ai/chat");
    assert!(CHAT_URL.starts_with("https://"));
    assert!(CHAT_URL.contains("mistral.ai"));
}

/// Reads a literal body as the script engine does, for the escapes in use.
fn unescape(t: &str) -> String {
    let mut out = String::new();
    let mut chars = t.chars();
    while let Some(c) = chars.next() {
        if c == '\\' {
            match chars.next() {
                Some('n') => out.push('\n'),
                Some('r') => out.push('\r'),
                Some(x) => out.push(x),
                None => out.push('\\'),
            }
        } else {
            out.push(c);
        }
    }
    out
}

#[test]
fn escape_round_trips_control_characters() {
    let corpus = ["", "\\", "`", "$", "\n", "\r", "\\n", "`$`", "a\\`b$c\nd\re", "\\\\``$$\n\r"];
    for raw in corpus.iter() {
        assert_eq!(unescape(&escape_message(raw)), *raw);
    }
}

#[test]
fn escape_is_injective_on_corpus() {
    let corpus = ["", "\\", "`", "$", "\n", "\r", "\\n", "n", "\\r", "r", "\\`", "\\\\", "a$b", "a\\$b"];
    for (i, a) in corpus.iter().enumerate() {
        for (j, b) in corpus.iter().enumerate() {
            if i != j {
                assert_ne!(escape_message(a), escape_message(b));
            }
        }
    }
}

#[test]
fn escape_exact_outputs() {
    assert_eq!(escape_message(""), "");
    assert_eq!(escape_message("plain"), "plain");
    assert_eq!(escape_message("a\\b`c$d\ne\rf"), "a\\\\b\\`c\\$d\\ne\\rf");
    assert_eq!(escape_message("é`"), "é\\`");
}

#[test]
fn escaped_sample_message_is_safe() {
    let escaped = escape_message("Explain `async/await` in code.\nCost: $50\\unit.");
    assert_eq!(escaped, "Explain \\`async/await\\` in code.\\nCost: \\$50\\\\unit.");
    assert!(escaped.contains(r"\`async/await\`"));
    assert!(escaped.contains(r"\$50"));
    assert!(escaped.contains(r"\\unit"));
    assert!(escaped.contains(r"\n"));
    assert!(!escaped.contains('\n'));
    assert!(!escaped.contains('\r'));
}

#[test]
fn empty_message_gives_empty_literal() {
    let js = get_inject_message_js("");
    assert_eq!(js, format!("{}{}", INJECT_MESSAGE_JS_HEAD, INJECT_MESSAGE_JS_TAIL));
    assert!(INJECT_MESSAGE_JS_HEAD.ends_with("const message = `"));
    assert!(INJECT_MESSAGE_JS_TAIL.starts_with("`;"));
}

#[test]
fn inject_script_wraps_escaped_message() {
    let js = get_inject_message_js("a`b");
    assert_eq!(js, format!("{}a\\`b{}", INJECT_MESSAGE_JS_HEAD, INJECT_MESSAGE_JS_TAIL));
    assert!(js.contains("const maxRetries = 15;"));
    assert!(js.contains("const totalTimeout = 8000;"));
}

#[test]
fn connectivity_script_mentions_fallback() {
    let js = get_connectivity_js();
    assert!(js.contains("navigate_to_offline"));
    assert!(js.contains("https://chat.mistral.ai/chat"));
}
