//! The camera page: a one-shot local web page that reads a QR code and posts it back.
use vstd::prelude::*;
use crate::text::{begins_with, chars_of, slice_chars, starts_with_chars, trim, trim_chars};

verus! {

/// The page served to the browser: it opens the camera, detects a QR code (held
/// steady for three frames) and posts its text to `/result`.
pub const CAM_PAGE: &'static str = r#"<!DOCTYPE html>
<html lang="en">
<head>
<meta charset="utf-8">
<meta name="viewport" content="width=device-width,initial-scale=1">
<title>tofa — scan QR</title>
<style>
  * { box-sizing: border-box; margin: 0; padding: 0; }
  body {
    background: #0d1117;
    color: #e6edf3;
    font-family: 'SF Mono', 'JetBrains Mono', monospace;
    display: flex; flex-direction: column;
    align-items: center; justify-content: center;
    height: 100vh; gap: 1.5rem;
  }
  h1 { color: #58a6ff; font-size: 1.5rem; letter-spacing: 0.05em; }
  #wrap {
    position: relative;
    width: min(480px, 90vw);
    aspect-ratio: 4/3;
    border-radius: 12px;
    overflow: hidden;
    background: #010409;
    box-shadow: 0 0 0 1px #21262d;
  }
  video { width: 100%; height: 100%; object-fit: cover; display: block; transform: scaleX(-1); }
  #overlay {
    position: absolute; inset: 0;
    display: flex; align-items: center; justify-content: center;
  }
  #finder {
    width: 52%; aspect-ratio: 1;
    position: relative;
  }
  /* Corner marks */
  #finder::before, #finder::after,
  #finder > span::before, #finder > span::after {
    content: '';
    position: absolute;
    width: 22%; height: 22%;
    border-color: #58a6ff;
    border-style: solid;
    border-width: 0;
  }
  #finder::before  { top:0; left:0;  border-top-width:3px; border-left-width:3px;  border-radius: 4px 0 0 0; }
  #finder::after   { top:0; right:0; border-top-width:3px; border-right-width:3px; border-radius: 0 4px 0 0; }
  #finder > span::before { bottom:0; left:0;  border-bottom-width:3px; border-left-width:3px;  border-radius: 0 0 0 4px; }
  #finder > span::after  { bottom:0; right:0; border-bottom-width:3px; border-right-width:3px; border-radius: 0 0 4px 0; }
  /* Scan line */
  #scanline {
    position: absolute; left: 0; right: 0;
    height: 2px; background: linear-gradient(90deg, transparent, #58a6ff, transparent);
    animation: scan 2s linear infinite;
    top: 0;
  }
  @keyframes scan { 0%{top:0} 100%{top:100%} }
  #status {
    font-size: 0.85rem;
    color: #6e7681;
    text-align: center;
    min-height: 1.5em;
    transition: color 0.3s;
  }
  #status.ok   { color: #58a6ff; }
  #status.warn { color: #d29922; }
  #status.err  { color: #f85149; }
  #hint { font-size: 0.75rem; color: #30363d; text-align: center; max-width: 360px; }
  #done {
    display: flex; flex-direction: column;
    align-items: center; justify-content: center;
    position: fixed; inset: 0;
    background: rgba(13,17,23,0.85);
    animation: fadein 0.3s ease;
  }
  #check {
    font-size: 40vmin;
    color: rgba(63,185,80,0.85);
    line-height: 1;
    animation: pop 0.4s cubic-bezier(0.34,1.56,0.64,1);
  }
  #done p { color: #3fb950; font-size: 1.4rem; margin-top: 1rem; letter-spacing: 0.05em; }
  @keyframes fadein { from{opacity:0} to{opacity:1} }
  @keyframes pop { from{transform:scale(0.3);opacity:0} to{transform:scale(1);opacity:1} }
</style>
</head>
<body>
<h1>TOFA</h1>
<div id="wrap">
  <video id="video" autoplay playsinline muted></video>
  <div id="overlay">
    <div id="finder">
      <span></span>
      <div id="scanline"></div>
    </div>
  </div>
</div>
<p id="status">Starting camera…</p>
<p id="hint">Point a QR code at the square above</p>

<script>
const video   = document.getElementById('video');
const status  = document.getElementById('status');
const hint    = document.getElementById('hint');

let steadyCount = 0;
let sent = false;

async function start() {
  try {
    const stream = await navigator.mediaDevices.getUserMedia({
      video: { facingMode: 'environment', width: { ideal: 1280 } }
    });
    video.srcObject = stream;
    await video.play();
    setStatus('', 'Scanning for QR code…', 'Point it at the square');
    tick();
  } catch(e) {
    setStatus('err', 'Camera access denied — allow it in your browser', '');
  }
}

function tick() {
  if (sent) return;

  // Prefer native BarcodeDetector (Chrome, Safari 17+)
  if ('BarcodeDetector' in window) {
    const bd = new BarcodeDetector({ formats: ['qr_code'] });
    bd.detect(video).then(codes => {
      if (codes.length > 0) {
        onFound(codes[0].rawValue);
      } else {
        setStatus('', 'Scanning…', 'Point a QR code at the square');
        steadyCount = 0;
      }
      requestAnimationFrame(tick);
    }).catch(() => requestAnimationFrame(tick));
  } else {
    // Fallback: draw frame on canvas and use jsQR
    if (!window._jsqrLoaded) {
      window._jsqrLoaded = true;
      const s = document.createElement('script');
      s.src = 'https://cdn.jsdelivr.net/npm/jsqr@1.4.0/dist/jsQR.min.js';
      s.onload = tick;
      document.head.appendChild(s);
      return;
    }
    if (typeof jsQR === 'undefined') { requestAnimationFrame(tick); return; }

    const canvas = document.createElement('canvas');
    canvas.width  = video.videoWidth;
    canvas.height = video.videoHeight;
    const ctx = canvas.getContext('2d');
    ctx.drawImage(video, 0, 0);
    const img = ctx.getImageData(0, 0, canvas.width, canvas.height);
    const code = jsQR(img.data, img.width, img.height);
    if (code) {
      onFound(code.data);
    } else {
      setStatus('', 'Scanning…', 'Point a QR code at the square');
      steadyCount = 0;
      requestAnimationFrame(tick);
    }
  }
}

function onFound(value) {
  if (sent) return;
  steadyCount++;
  if (steadyCount < 3) {
    setStatus('warn', 'QR detected — hold steady…', 'Keep it still for a moment');
    requestAnimationFrame(tick);
    return;
  }
  sent = true;
  setStatus('ok', 'Got it! Adding to vault…', '');
  fetch('/result', { method: 'POST', body: value })
    .then(() => {
      document.body.innerHTML = `
        <div id="done">
          <div id="check">✓</div>
          <p>Added to vault</p>
        </div>`;
      setTimeout(() => window.close(), 2000);
    })
    .catch(() => {
      setStatus('err', 'Could not send to tofa', '');
    });
}

function setStatus(cls, msg, h) {
  status.className = cls;
  status.textContent = msg;
  hint.textContent = h;
}

start();
</script>
</body>
</html>"#;

/// The page served to the browser.
pub fn build_html() -> (r: String)
    ensures
        r@ == CAM_PAGE@,
{
    String::from_str(CAM_PAGE)
}

/// Whether every character of `s` is an ASCII digit.
pub open spec fn all_digits(s: Seq<char>) -> bool {
    forall|i: int| 0 <= i < s.len() ==> '0' <= #[trigger] s[i] <= '9'
}

/// The number the decimal digits `s` spell.
pub open spec fn digits_value(s: Seq<char>) -> nat
    decreases s.len(),
{
    if s.len() == 0 {
        0
    } else {
        digits_value(s.drop_last()) * 10 + ((s.last() as u32) - ('0' as u32)) as nat
    }
}

/// What `str::parse::<usize>` makes of `s`: an optional `+` followed by at least
/// one ASCII digit, with a value that fits in `usize`; nothing otherwise.
pub open spec fn parsed_usize(s: Seq<char>) -> Option<nat> {
    let d = if s.len() > 0 && s[0] == '+' { s.drop_first() } else { s };
    if d.len() == 0 || !all_digits(d) || digits_value(d) > usize::MAX {
        None
    } else {
        Some(digits_value(d))
    }
}

proof fn lemma_digits_value_mono(s: Seq<char>, i: int)
    requires
        0 <= i <= s.len(),
        all_digits(s),
    ensures
        digits_value(s.take(i)) <= digits_value(s),
    decreases s.len() - i,
{
    if i < s.len() {
        lemma_digits_value_mono(s, i + 1);
        assert(s.take(i + 1).drop_last() == s.take(i));
        assert(s.take(i + 1).last() == s[i]);
    } else {
        assert(s.take(i) == s);
    }
}

/// Parses a decimal `usize` as `str::parse` does.
pub fn parse_usize(s: &[char]) -> (r: Option<usize>)
    ensures
        match r {
            Some(v) => parsed_usize(s@) == Some(v as nat),
            None => parsed_usize(s@) is None,
        },
{
    let start: usize = if s.len() > 0 && s[0] == '+' { 1 } else { 0 };
    let ghost d = if s@.len() > 0 && s@[0] == '+' { s@.drop_first() } else { s@ };
    assert(d == s@.skip(start as int));
    if start >= s.len() {
        return None;
    }
    let mut v: usize = 0;
    let mut i: usize = start;
    while i < s.len()
        invariant
            start <= i <= s.len(),
            d == s@.skip(start as int),
            d == (if s@.len() > 0 && s@[0] == '+' { s@.drop_first() } else { s@ }),
            all_digits(s@.subrange(start as int, i as int)),
            v as nat == digits_value(s@.subrange(start as int, i as int)),
        decreases s.len() - i,
    {
        let c = s[i];
        if !('0' <= c && c <= '9') {
            assert(d[i - start] == c);
            assert(!all_digits(d));
            assert(d.len() > 0);
            return None;
        }
        let dv = (c as u32 - '0' as u32) as usize;
        let ghost prefix = s@.subrange(start as int, i + 1);
        assert(prefix.drop_last() == s@.subrange(start as int, i as int));
        assert(prefix.last() == c);
        if v > (usize::MAX - dv) / 10 {
            proof {
                assert(digits_value(prefix) > usize::MAX) by (nonlinear_arith)
                    requires
                        v > (usize::MAX - dv) / 10,
                        digits_value(prefix) == v * 10 + dv,
                        dv <= 9,
                ;
                if all_digits(d) {
                    assert(prefix == d.take(i + 1 - start));
                    lemma_digits_value_mono(d, i + 1 - start);
                    assert(digits_value(d) > usize::MAX);
                }
                assert(parsed_usize(s@) is None);
            }
            return None;
        }
        assert(v * 10 + dv <= usize::MAX) by (nonlinear_arith)
            requires
                v <= (usize::MAX - dv) / 10,
                dv <= 9,
        ;
        v = v * 10 + dv;
        i = i + 1;
    }
    assert(s@.subrange(start as int, s@.len() as int) == d);
    Some(v)
}

/// The Content-Length known after reading the (trimmed) header line `line`: a
/// `Content-Length:` header sets it to its trimmed value parsed as a number (0 when
/// that fails); any other header leaves `current`.
pub open spec fn content_length_after_spec(line: Seq<char>, current: usize) -> nat {
    if begins_with(line, "Content-Length:"@) {
        match parsed_usize(trim(line.skip(15))) {
            Some(v) => v,
            None => 0,
        }
    } else {
        current as nat
    }
}

/// Updates the request's Content-Length with one trimmed header line.
pub fn content_length_after(line: &str, current: usize) -> (r: usize)
    ensures
        r as nat == content_length_after_spec(line@, current),
{
    let cs = chars_of(line);
    let prefix = chars_of("Content-Length:");
    assert(prefix@.len() == 15) by {
        reveal_strlit("Content-Length:");
    }
    if starts_with_chars(cs.as_slice(), prefix.as_slice()) {
        let rest = slice_chars(cs.as_slice(), 15, cs.len());
        assert(rest@ == cs@.skip(15));
        let v = trim_chars(rest.as_slice());
        match parse_usize(v.as_slice()) {
            Some(n) => n,
            None => 0,
        }
    } else {
        current
    }
}

/// Whether a header line ends the headers: blank once trimmed.
pub fn ends_headers(line: &str) -> (r: bool)
    ensures
        r == (trim(line@).len() == 0),
{
    trim_chars(chars_of(line).as_slice()).len() == 0
}

/// How the camera server answers a request.
#[derive(Clone, Copy, Debug, PartialEq, Eq, Structural)]
pub enum RequestAction {
    /// A `GET /…`: serve the page.
    ServePage,
    /// A `POST /result` with a body: read the body, it is the scanned text.
    TakeBody,
    /// Anything else (such as a CORS preflight): answer 204 No Content.
    NoContent,
}

/// The answer to a request whose first line is `request_line` and whose
/// Content-Length is `content_length`.
pub open spec fn request_action_spec(request_line: Seq<char>, content_length: usize) -> RequestAction {
    if begins_with(request_line, "GET /"@) {
        RequestAction::ServePage
    } else if begins_with(request_line, "POST /result"@) && content_length > 0 {
        RequestAction::TakeBody
    } else {
        RequestAction::NoContent
    }
}

/// Decides how to answer a request.
pub fn request_action(request_line: &str, content_length: usize) -> (r: RequestAction)
    ensures
        r == request_action_spec(request_line@, content_length),
{
    let cs = chars_of(request_line);
    if starts_with_chars(cs.as_slice(), chars_of("GET /").as_slice()) {
        RequestAction::ServePage
    } else if starts_with_chars(cs.as_slice(), chars_of("POST /result").as_slice()) && content_length > 0 {
        RequestAction::TakeBody
    } else {
        RequestAction::NoContent
    }
}

} // verus!
