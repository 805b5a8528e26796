//! The pages that the gateway shows: the challenge page, which works
//! without scripts, and the page that welcomes a client with a valid
//! passport.

use vstd::prelude::*;

use crate::captcha::svg::{embed_image, embedded_image};
use crate::routes::{
    escaped, html_escape, preview, token_preview,
};
use crate::types::{opt_text, CaptchaChallenge};

verus! {

/// The challenge page up to the place of the error.
pub const PAGE_HEAD: &'static str = r##"<!DOCTYPE html>
<html lang="en">
<head>
    <meta charset="UTF-8">
    <meta name="viewport" content="width=device-width, initial-scale=1.0">
    <title>Sigil - Verification Required</title>
    <style>
        * { margin: 0; padding: 0; box-sizing: border-box; }
        body {
            font-family: -apple-system, BlinkMacSystemFont, 'Segoe UI', Roboto, sans-serif;
            background: linear-gradient(135deg, #1a1a2e 0%, #16213e 100%);
            min-height: 100vh;
            display: flex;
            align-items: center;
            justify-content: center;
            color: #e0e0e0;
        }
        .container {
            background: rgba(255, 255, 255, 0.05);
            border-radius: 16px;
            padding: 40px;
            max-width: 420px;
            width: 90%;
            box-shadow: 0 8px 32px rgba(0, 0, 0, 0.3);
            border: 1px solid rgba(255, 255, 255, 0.1);
        }
        .brand {
            display: flex;
            align-items: center;
            gap: 12px;
            margin-bottom: 24px;
        }
        .brand-logo { font-size: 2rem; }
        .brand-text h1 { font-size: 1.4rem; color: #fff; margin-bottom: 4px; }
        .brand-text .subtitle { color: #888; font-size: 0.85rem; }
        .captcha-box {
            background: #0f0f1a;
            border-radius: 8px;
            padding: 20px;
            margin-bottom: 20px;
            text-align: center;
        }
        .captcha-image {
            border-radius: 4px;
            margin-bottom: 16px;
            background: #1a1a2e;
            min-height: 80px;
            display: flex;
            align-items: center;
            justify-content: center;
            overflow: hidden;
        }
        .captcha-image svg { max-width: 100%; height: auto; }
        .instructions { font-size: 0.85rem; color: #aaa; }
        .answer-input {
            width: 100%;
            padding: 14px 16px;
            background: #2a2a4a;
            border: 2px solid transparent;
            border-radius: 8px;
            color: #fff;
            font-size: 1.2rem;
            font-family: monospace;
            letter-spacing: 4px;
            text-align: center;
            text-transform: uppercase;
            margin-bottom: 16px;
        }
        .answer-input:focus { outline: none; border-color: #4a9eff; background: #2a3a5a; }
        .submit-btn {
            width: 100%;
            padding: 14px;
            background: linear-gradient(135deg, #4a9eff 0%, #3a7edf 100%);
            border: none;
            border-radius: 8px;
            color: white;
            font-size: 1rem;
            font-weight: 600;
            cursor: pointer;
        }
        .submit-btn:hover { box-shadow: 0 4px 12px rgba(74, 158, 255, 0.4); }
        .refresh-link {
            display: block;
            text-align: center;
            margin-top: 16px;
            color: #888;
            text-decoration: none;
            font-size: 0.85rem;
        }
        .refresh-link:hover { color: #aaa; }
        .footer {
            margin-top: 24px;
            text-align: center;
            font-size: 0.75rem;
            color: #666;
        }
        .error {
            background: rgba(255, 77, 77, 0.1);
            border: 1px solid rgba(255, 77, 77, 0.3);
            color: #ff6b6b;
            padding: 12px;
            border-radius: 8px;
            margin-bottom: 16px;
        }
    </style>
</head>
<body>
    <div class="container">
        <div class="brand">
            <span class="brand-logo">🔒</span>
            <div class="brand-text">
                <h1>Sigil</h1>
                <p class="subtitle">Human verification required</p>
            </div>
        </div>

        "##;

/// The challenge page from the error to the challenge identifier.
pub const PAGE_FORM: &'static str = r##"

        <form method="POST" action="/verify">
            <input type="hidden" name="challenge_id" value=""##;

/// The challenge page from the challenge identifier to the image.
pub const PAGE_IMAGE: &'static str = r##"">

            <div class="captcha-box">
                <div class="captcha-image">
                    "##;

/// The challenge page from the image to the instructions.
pub const PAGE_INSTRUCTIONS: &'static str = r##"
                </div>
                <p class="instructions">"##;

/// The challenge page after the instructions.
pub const PAGE_TAIL: &'static str = r##"</p>
            </div>

            <input type="text"
                   class="answer-input"
                   name="answer"
                   placeholder="Enter code"
                   autocomplete="off"
                   autocapitalize="off"
                   spellcheck="false"
                   maxlength="8"
                   autofocus
                   required>

            <button type="submit" class="submit-btn">Verify</button>

            <a href="/" class="refresh-link">↻ New Challenge</a>
        </form>

        <div class="footer">
            Protected by Cerberus • No JavaScript required
        </div>
    </div>
</body>
</html>"##;

/// Begins the words of an error on the challenge page.
pub const ERROR_OPEN: &'static str = r##"<div class="error" style="display:block">"##;

/// Ends the words of an error on the challenge page.
pub const ERROR_CLOSE: &'static str = "</div>";

/// The welcome page up to the beginning of the passport.
pub const WELCOME_HEAD: &'static str = r##"<!DOCTYPE html>
<html lang="en">
<head>
    <meta charset="UTF-8">
    <meta name="viewport" content="width=device-width, initial-scale=1.0">
    <title>Sigil - Welcome</title>
    <style>
        body {
            font-family: -apple-system, BlinkMacSystemFont, 'Segoe UI', Roboto, sans-serif;
            background: linear-gradient(135deg, #1a1a2e 0%, #16213e 100%);
            min-height: 100vh;
            display: flex;
            align-items: center;
            justify-content: center;
            color: #e0e0e0;
            margin: 0;
        }
        .container {
            background: rgba(255, 255, 255, 0.05);
            border-radius: 16px;
            padding: 40px;
            max-width: 600px;
            text-align: center;
            border: 1px solid rgba(255, 255, 255, 0.1);
        }
        h1 { color: #4a9eff; margin-bottom: 16px; }
        .success { color: #6bff6b; font-size: 3rem; margin-bottom: 16px; }
        .info { background: rgba(74, 158, 255, 0.1); padding: 16px; border-radius: 8px; margin: 20px 0; font-family: monospace; font-size: 0.9rem; word-break: break-all; }
        .backend { color: #888; margin-top: 24px; font-size: 0.85rem; }
        .backend a { color: #4a9eff; text-decoration: none; }
    </style>
</head>
<body>
    <div class="container">
        <div class="success">✓</div>
        <h1>Welcome to Sigil</h1>
        <p>You have successfully passed human verification.</p>
        <div class="info">
            <strong>Passport Token:</strong><br>
            "##;

/// The welcome page after the beginning of the passport.
pub const WELCOME_TAIL: &'static str = r##"...
        </div>
        <p>Your passport is valid for 10 minutes. You can now access the protected service.</p>
        <p class="backend">
            In production, this would proxy to:<br>
            <a href="#">sigilahzwq5u34gdh2bl3ymokyc7kobika55kyhztsucdoub73hz7qid.onion</a>
        </p>
    </div>
</body>
</html>"##;

/// The words of an error as they stand on the challenge page, escaped;
/// nothing where there is no error.
pub open spec fn error_text(error: Option<Seq<char>>) -> Seq<char> {
    match error {
        Some(words) => ERROR_OPEN@ + escaped(words) + ERROR_CLOSE@,
        None => Seq::empty(),
    }
}

/// The challenge page: the error, if there is one, the hidden challenge
/// identifier, the image and the instructions, in their places. What
/// comes from outside is escaped.
pub open spec fn challenge_page_text(
    challenge_id: Seq<char>,
    image_data: Seq<char>,
    instructions: Seq<char>,
    error: Option<Seq<char>>,
) -> Seq<char> {
    PAGE_HEAD@ + error_text(error) + PAGE_FORM@ + escaped(challenge_id) + PAGE_IMAGE@ + embedded_image(
        image_data,
    ) + PAGE_INSTRUCTIONS@ + escaped(instructions) + PAGE_TAIL@
}

/// The page that welcomes the holder of the passport `token`, of which
/// it shows the beginning.
pub open spec fn welcome_page_text(token: Seq<char>) -> Seq<char> {
    WELCOME_HEAD@ + preview(token) + WELCOME_TAIL@
}

/// Renders the challenge page for `challenge`, with the words of an
/// error if there was one.
pub fn challenge_page(challenge: &CaptchaChallenge, error: Option<&str>) -> (page: String)
    ensures
        page@ == challenge_page_text(
            challenge.challenge_id@,
            challenge.image_data@,
            challenge.instructions@,
            match error {
                Some(words) => Some(words@),
                None => None,
            },
        ),
{
    let mut page = String::from_str(PAGE_HEAD);
    match error {
        Some(words) => {
            let shown = html_escape(words);
            page.append(ERROR_OPEN);
            page.append(shown.as_str());
            page.append(ERROR_CLOSE);
            proof {
                assert(page@ =~= PAGE_HEAD@ + error_text(Some(words@)));
            }
        },
        None => {
            proof {
                assert(page@ =~= PAGE_HEAD@ + error_text(None));
            }
        },
    }
    let id = html_escape(challenge.challenge_id.as_str());
    let image = embed_image(challenge.image_data.as_str());
    let instructions = html_escape(challenge.instructions.as_str());
    page.append(PAGE_FORM);
    page.append(id.as_str());
    page.append(PAGE_IMAGE);
    page.append(image.as_str());
    page.append(PAGE_INSTRUCTIONS);
    page.append(instructions.as_str());
    page.append(PAGE_TAIL);
    page
}

/// Renders the page that welcomes the holder of the passport `token`.
pub fn welcome_page(token: &str) -> (page: String)
    ensures
        page@ == welcome_page_text(token@),
{
    let shown = token_preview(token);
    let mut page = String::from_str(WELCOME_HEAD);
    page.append(shown.as_str());
    page.append(WELCOME_TAIL);
    page
}

} // verus!
