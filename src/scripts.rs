use vstd::prelude::*;
use vstd::string::StringExecFns;
use crate::escape::{escape_message, escape_seq};

verus! {

/// Address of the chat page that the main window shows.
pub const CHAT_URL: &'static str = "https://chat.mistral.ai/chat";

/// Address of the local page shown when the chat page cannot be reached.
pub const OFFLINE_URL: &'static str = "tauri://localhost/index.html";

/// Run on the local page after navigating to it, to show its offline state.
pub const OFFLINE_STATE_JS: &'static str = "document.getElementById('main-container').className = 'container offline';";

/// Styles that keep page controls clear of an overlay title bar.
pub const HIDE_TITLEBAR_OVERLAP_JS: &'static str = r#"
    (function() {
        const STYLE_ID = 'le-chat-custom-styles';
        
        function injectStyles() {
            // Avoid duplicate injection
            if (document.getElementById(STYLE_ID)) return;
            
            const style = document.createElement('style');
            style.id = STYLE_ID;
            style.textContent = `
                /* Hide the workspace menu button that overlaps title bar */
                div[data-sidebar="header"] button[aria-haspopup="menu"] {
                    display: none !important;
                }
                
                /* Hide the flex-1 wrapper containing the workspace button */
                div[data-sidebar="header"] .flex-1:has(button[aria-haspopup="menu"]) {
                    display: none !important;
                }
                
                /* Make the button container full width and push buttons to the right */
                div[data-sidebar="header"] > div.flex {
                    width: 100% !important;
                    justify-content: flex-end !important;
                }
                
                /* Add top padding to sidebar header to clear macOS traffic lights */
                div[data-sidebar="header"] {
                    padding-top: 2.5rem !important;
                }
            `;
            document.head.appendChild(style);
            
            // Fallback for browsers without :has() support
            document.querySelectorAll('div[data-sidebar="header"] button[aria-haspopup="menu"]').forEach(btn => {
                btn.style.display = 'none';
                // Also hide the flex-1 wrapper parent
                const wrapper = btn.closest('.flex-1');
                if (wrapper) {
                    wrapper.style.display = 'none';
                }
            });
            
            // Push buttons to the right (fallback)
            document.querySelectorAll('div[data-sidebar="header"] > div.flex').forEach(container => {
                container.style.width = '100%';
                container.style.justifyContent = 'flex-end';
            });
            
            console.log('[Le Chat] Custom styles injected');
        }
        
        // Retry until DOM is ready
        if (document.readyState === 'loading') {
            document.addEventListener('DOMContentLoaded', injectStyles);
        } else {
            injectStyles();
        }
        
        // Re-inject on dynamic navigation (React SPA)
        new MutationObserver(() => injectStyles()).observe(
            document.documentElement, 
            { childList: true, subtree: true }
        );
    })();
    "#;

/// A drawn title bar with minimize, maximize and close buttons.
pub const CUSTOM_TITLEBAR_JS: &'static str = r#"
    (function() {
        const TITLEBAR_ID = 'le-chat-custom-titlebar';
        
        function injectTitlebar() {
            if (document.getElementById(TITLEBAR_ID)) return;
            if (!document.body) {
                setTimeout(injectTitlebar, 50);
                return;
            }
            
            const titlebar = document.createElement('div');
            titlebar.id = TITLEBAR_ID;
            titlebar.setAttribute('data-tauri-drag-region', '');
            
            titlebar.innerHTML = `
                <style>
                    /* Mistral-themed titlebar with dark/light mode support */
                    #le-chat-custom-titlebar {
                        position: fixed;
                        top: 0;
                        left: 0;
                        right: 0;
                        height: 32px;
                        display: flex;
                        justify-content: space-between;
                        align-items: center;
                        z-index: 999999;
                        -webkit-app-region: drag;
                        user-select: none;
                        transition: background-color 0.2s, border-color 0.2s;
                    }
                    
                    /* Dark mode (default for Mistral) */
                    #le-chat-custom-titlebar {
                        background: #18181b;
                        border-bottom: 1px solid #27272a;
                    }
                    #le-chat-custom-titlebar .title {
                        color: #a1a1aa;
                        font-size: 12px;
                        font-weight: 500;
                        font-family: -apple-system, BlinkMacSystemFont, 'Segoe UI', 'Inter', sans-serif;
                        padding-left: 12px;
                        pointer-events: none;
                    }
                    #le-chat-custom-titlebar .controls {
                        display: flex;
                        height: 100%;
                        -webkit-app-region: no-drag;
                    }
                    #le-chat-custom-titlebar button {
                        width: 46px;
                        height: 100%;
                        border: none;
                        background: transparent;
                        color: #71717a;
                        display: flex;
                        align-items: center;
                        justify-content: center;
                        cursor: pointer;
                        transition: background-color 0.15s, color 0.15s;
                    }
                    #le-chat-custom-titlebar button:hover {
                        background: #27272a;
                        color: #fafafa;
                    }
                    #le-chat-custom-titlebar button:active {
                        background: #3f3f46;
                    }
                    #le-chat-custom-titlebar button.close:hover {
                        background: #dc2626;
                        color: #fff;
                    }
                    #le-chat-custom-titlebar button svg {
                        width: 10px;
                        height: 10px;
                    }
                    
                    /* Light mode support */
                    @media (prefers-color-scheme: light) {
                        #le-chat-custom-titlebar {
                            background: #fafafa;
                            border-bottom: 1px solid #e4e4e7;
                        }
                        #le-chat-custom-titlebar .title {
                            color: #52525b;
                        }
                        #le-chat-custom-titlebar button {
                            color: #71717a;
                        }
                        #le-chat-custom-titlebar button:hover {
                            background: #e4e4e7;
                            color: #18181b;
                        }
                        #le-chat-custom-titlebar button:active {
                            background: #d4d4d8;
                        }
                        #le-chat-custom-titlebar button.close:hover {
                            background: #dc2626;
                            color: #fff;
                        }
                    }
                    
                    /* Also detect Mistral's theme via html/body classes */
                    html.light #le-chat-custom-titlebar,
                    body.light #le-chat-custom-titlebar,
                    [data-theme="light"] #le-chat-custom-titlebar {
                        background: #fafafa;
                        border-bottom: 1px solid #e4e4e7;
                    }
                    html.light #le-chat-custom-titlebar .title,
                    body.light #le-chat-custom-titlebar .title,
                    [data-theme="light"] #le-chat-custom-titlebar .title {
                        color: #52525b;
                    }
                    html.light #le-chat-custom-titlebar button,
                    body.light #le-chat-custom-titlebar button,
                    [data-theme="light"] #le-chat-custom-titlebar button {
                        color: #71717a;
                    }
                    html.light #le-chat-custom-titlebar button:hover,
                    body.light #le-chat-custom-titlebar button:hover,
                    [data-theme="light"] #le-chat-custom-titlebar button:hover {
                        background: #e4e4e7;
                        color: #18181b;
                    }
                    html.light #le-chat-custom-titlebar button.close:hover,
                    body.light #le-chat-custom-titlebar button.close:hover,
                    [data-theme="light"] #le-chat-custom-titlebar button.close:hover {
                        background: #dc2626;
                        color: #fff;
                    }
                    
                    /* Push body content down to avoid overlap */
                    html, body {
                        padding-top: 32px !important;
                    }
                    /* Adjust sidebar header for Windows/Linux */
                    div[data-sidebar="header"] {
                        padding-top: 0.5rem !important;
                    }
                </style>
                <span class="title">Le Chat</span>
                <div class="controls">
                    <button id="lc-tb-minimize" title="Minimize">
                        <svg viewBox="0 0 10 1">
                            <rect fill="currentColor" width="10" height="1"/>
                        </svg>
                    </button>
                    <button id="lc-tb-maximize" title="Maximize">
                        <svg viewBox="0 0 10 10">
                            <rect fill="none" stroke="currentColor" stroke-width="1" width="9" height="9" x="0.5" y="0.5"/>
                        </svg>
                    </button>
                    <button id="lc-tb-close" class="close" title="Close">
                        <svg viewBox="0 0 10 10">
                            <path fill="currentColor" d="M1.41 0L0 1.41 3.59 5 0 8.59 1.41 10 5 6.41 8.59 10 10 8.59 6.41 5 10 1.41 8.59 0 5 3.59z"/>
                        </svg>
                    </button>
                </div>
            `;
            
            document.body.prepend(titlebar);
            
            // Wire up buttons using Tauri API
            const { getCurrentWindow } = window.__TAURI__.window;
            const appWindow = getCurrentWindow();
            
            document.getElementById('lc-tb-minimize').onclick = (e) => {
                e.preventDefault();
                appWindow.minimize();
            };
            document.getElementById('lc-tb-maximize').onclick = (e) => {
                e.preventDefault();
                appWindow.toggleMaximize();
            };
            document.getElementById('lc-tb-close').onclick = (e) => {
                e.preventDefault();
                appWindow.hide(); // Hide instead of close - app stays in tray
            };
            
            console.log('[Le Chat] Custom titlebar injected');
        }
        
        if (document.readyState === 'loading') {
            document.addEventListener('DOMContentLoaded', injectTitlebar);
        } else {
            injectTitlebar();
        }
        
        // Re-inject on navigation (SPA)
        new MutationObserver(() => {
            if (!document.getElementById(TITLEBAR_ID)) {
                injectTitlebar();
            }
        }).observe(document.documentElement, { childList: true, subtree: true });
    })();
    "#;

/// The completion watcher: reports the end of a streamed response once.
pub const RESPONSE_WATCHER_JS: &'static str = r#"
    (function() {
        if (window.__leChatResponseWatcher) return;
        window.__leChatResponseWatcher = true;
        
        const CHECK_INTERVAL = 500;
        const INITIAL_DELAY = 2000;
        let wasStreaming = false;
        let checkCount = 0;
        const MAX_CHECKS = 600; // 5 minutes max watch time
        
        function isStreaming() {
            // Check for stop/cancel button which appears during streaming
            const stopBtn = document.querySelector('button[aria-label*="stop" i]')
                || document.querySelector('button[aria-label*="Stop" i]')
                || document.querySelector('button[aria-label*="cancel" i]')
                || document.querySelector('button[data-testid*="stop" i]');
            return !!stopBtn;
        }
        
        // Wait for streaming to start before watching for completion
        setTimeout(() => {
            const intervalId = setInterval(() => {
                checkCount++;
                
                if (checkCount > MAX_CHECKS) {
                    clearInterval(intervalId);
                    window.__leChatResponseWatcher = false;
                    return;
                }
                
                const streaming = isStreaming();
                
                if (streaming) {
                    wasStreaming = true;
                }
                
                // Streaming just stopped (was streaming, now it's not)
                if (wasStreaming && !streaming) {
                    clearInterval(intervalId);
                    window.__leChatResponseWatcher = false;
                    console.log('[Le Chat] Response complete');
                    if (window.__TAURI__) {
                        window.__TAURI__.event.emit('response-complete', {});
                    }
                }
            }, CHECK_INTERVAL);
        }, INITIAL_DELAY);
    })();
    "#;

/// Online/offline handling and the check that the chat page rendered.
pub const CONNECTIVITY_JS: &'static str = r#"
                    (function() {
                        const CHAT_URL = 'https://chat.mistral.ai/chat';
                        
                        // Monitor online/offline events
                        window.addEventListener('offline', () => {
                            console.log('[Le Chat] Browser went offline');
                        });
                        window.addEventListener('online', () => {
                            console.log('[Le Chat] Browser came online — reloading');
                            if (window.location.href.includes('chat.mistral.ai')) {
                                window.location.reload();
                            } else {
                                window.location.href = CHAT_URL;
                            }
                        });
                        
                        // Check if page loaded successfully after a delay.
                        // If the page title contains error indicators or the body has no
                        // meaningful content, it likely failed to load.
                        setTimeout(() => {
                            const isErrorPage = !navigator.onLine 
                                || document.title.toLowerCase().includes('error')
                                || document.title.toLowerCase().includes('not found')
                                || document.title === ''
                                || (document.body && document.body.innerText.length < 50 
                                    && !document.querySelector('[data-sidebar]'));
                            
                            if (isErrorPage && !window.location.href.includes('tauri')) {
                                console.log('[Le Chat] Page appears to have failed loading, showing offline page');
                                // Navigate to local offline fallback
                                if (window.__TAURI__) {
                                    window.__TAURI__.core.invoke('navigate_to_offline').catch(() => {});
                                }
                            }
                        }, 5000);
                    })();
                "#;

/// Injection engine script, up to the opening delimiter of the message literal.
pub const INJECT_MESSAGE_JS_HEAD: &'static str = r#"
        (function() {
            const message = `"#;

/// Injection engine script, from the closing delimiter of the message literal.
pub const INJECT_MESSAGE_JS_TAIL: &'static str = r#"`;
            const maxRetries = 15;
            const retryDelay = 300;
            const totalTimeout = 8000;
            let retryCount = 0;
            let timedOut = false;
            
            // Emit result back to Tauri so the launcher can show feedback
            function emitResult(success, error) {
                if (window.__TAURI__) {
                    window.__TAURI__.event.emit('inject-result', { success, error: error || null });
                }
            }
            
            // Global timeout to prevent infinite waiting
            const timeoutId = setTimeout(() => {
                timedOut = true;
                const msg = 'Message injection timed out after ' + totalTimeout + 'ms';
                console.error('[Le Chat]', msg);
                emitResult(false, msg);
            }, totalTimeout);
            
            function findTextarea() {
                return document.querySelector('textarea[placeholder*="Ask"]')
                    || document.querySelector('textarea[placeholder*="Message"]')
                    || document.querySelector('textarea[placeholder*="ask"]')
                    || document.querySelector('textarea[data-testid]')
                    || document.querySelector('div[contenteditable="true"]')
                    || document.querySelector('textarea');
            }
            
            function injectMessage() {
                if (timedOut) return;
                
                const textarea = findTextarea();
                
                if (!textarea) {
                    retryCount++;
                    if (retryCount < maxRetries) {
                        console.log('[Le Chat] Waiting for textarea... attempt', retryCount);
                        setTimeout(injectMessage, retryDelay);
                        return;
                    }
                    clearTimeout(timeoutId);
                    const msg = 'Could not find chat input after ' + maxRetries + ' attempts';
                    console.error('[Le Chat]', msg);
                    emitResult(false, msg);
                    return;
                }
                
                console.log('[Le Chat] Found textarea:', textarea.tagName);
                
                try {
                    // Handle contenteditable div (common in modern chat UIs)
                    if (textarea.contentEditable === 'true') {
                        textarea.innerHTML = message;
                        textarea.focus();
                        textarea.dispatchEvent(new Event('input', { bubbles: true }));
                        setTimeout(() => submitForm(textarea), 200);
                        return;
                    }
                    
                    // Use native setter to properly update React state
                    const nativeInputValueSetter = Object.getOwnPropertyDescriptor(
                        window.HTMLTextAreaElement.prototype, 
                        'value'
                    ).set;
                    
                    nativeInputValueSetter.call(textarea, message);
                    
                    // Dispatch events to notify React
                    textarea.dispatchEvent(new Event('input', { bubbles: true }));
                    textarea.dispatchEvent(new Event('change', { bubbles: true }));
                    
                    // Focus the textarea
                    textarea.focus();
                    
                    // Submit after input is set
                    setTimeout(() => submitForm(textarea), 200);
                } catch (err) {
                    clearTimeout(timeoutId);
                    const msg = 'Failed to set message: ' + err.message;
                    console.error('[Le Chat]', msg);
                    emitResult(false, msg);
                }
            }
            
            function submitForm(textarea) {
                if (timedOut) return;
                clearTimeout(timeoutId);
                
                // Look for send button - try multiple selectors
                const sendBtn = document.querySelector('button[type="submit"]')
                    || document.querySelector('button[aria-label*="send" i]')
                    || document.querySelector('button[aria-label*="Send" i]')
                    || document.querySelector('button[data-testid*="send" i]')
                    || document.querySelector('form button:last-of-type')
                    || document.querySelector('button svg[class*="send" i]')?.closest('button');
                
                if (sendBtn && !sendBtn.disabled) {
                    console.log('[Le Chat] Clicking send button');
                    sendBtn.click();
                    emitResult(true);
                } else {
                    // If no button found, try pressing Enter
                    console.log('[Le Chat] No send button, trying Enter key');
                    if (textarea) {
                        textarea.dispatchEvent(new KeyboardEvent('keydown', {
                            key: 'Enter',
                            code: 'Enter',
                            keyCode: 13,
                            which: 13,
                            bubbles: true,
                            cancelable: true
                        }));
                    }
                    emitResult(true);
                }
            }
            
            // Start the injection process immediately (no external delay needed)
            injectMessage();
        })();
    "#;

/// The injection script for a message: the message, escaped, stands
/// between the two halves of the script as the body of its literal.
pub open spec fn inject_message_script(message: Seq<char>) -> Seq<char> {
    INJECT_MESSAGE_JS_HEAD@ + escape_seq(message) + INJECT_MESSAGE_JS_TAIL@
}

pub fn get_hide_titlebar_overlap_js() -> (r: String)
    ensures
        r@ == HIDE_TITLEBAR_OVERLAP_JS@,
{
    String::from_str(HIDE_TITLEBAR_OVERLAP_JS)
}

pub fn get_custom_titlebar_js() -> (r: String)
    ensures
        r@ == CUSTOM_TITLEBAR_JS@,
{
    String::from_str(CUSTOM_TITLEBAR_JS)
}

pub fn get_response_watcher_js() -> (r: String)
    ensures
        r@ == RESPONSE_WATCHER_JS@,
{
    String::from_str(RESPONSE_WATCHER_JS)
}

pub fn get_connectivity_js() -> (r: String)
    ensures
        r@ == CONNECTIVITY_JS@,
{
    String::from_str(CONNECTIVITY_JS)
}

/// Builds the script that writes `message` into the chat input and submits it.
pub fn get_inject_message_js(message: &str) -> (r: String)
    ensures
        r@ == inject_message_script(message@),
{
    let escaped = escape_message(message);
    let mut js = String::from_str(INJECT_MESSAGE_JS_HEAD);
    js.append(escaped.as_str());
    js.append(INJECT_MESSAGE_JS_TAIL);
    js
}

} // verus!
