//! The LX Music source script served for a source.
use vstd::prelude::*;

use crate::domain::source::Source;
use crate::error::{AppError, ErrorCode};

verus! {

pub const SCRIPT_PART_HEAD: &'static str = "/**\n * @name ";

pub const SCRIPT_PART_AFTER_NAME: &'static str = "\n * @description Per-account Kugou Concept VIP source\n * @version 0.1.0\n */\nconst { EVENT_NAMES, request, on, send } = globalThis.lx\nconst API = '";

pub const SCRIPT_PART_AFTER_BASE: &'static str = "/api/v1/runtime/music-url'\nconst TOKEN = '";

pub const SCRIPT_PART_AFTER_TOKEN: &'static str = "'\nconst qualityMap = { '128k': '128k', '320k': '320k', flac: 'flac', flac24bit: 'flac24bit' }\nconst httpPost = (url, body) => new Promise((resolve, reject) => {\n  request(url, {\n    method: 'POST',\n    headers: {\n      'content-type': 'application/json',\n      authorization: `Bearer ${TOKEN}`,\n    },\n    body: JSON.stringify(body),\n  }, (err, resp) => {\n    if (err) return reject(err)\n    try {\n      const data = typeof resp.body === 'string' ? JSON.parse(resp.body) : (resp.body || {})\n      if (resp.statusCode && resp.statusCode >= 400) return reject(new Error(data.message || `request failed: ${resp.statusCode}`))\n      if (!data.url) return reject(new Error('empty url'))\n      resolve(data.url)\n    } catch (e) {\n      reject(e)\n    }\n  })\n})\non(EVENT_NAMES.request, ({ source, action, info }) => {\n  if (source !== 'kg' || action !== 'musicUrl') return Promise.reject(new Error('unsupported action'))\n  const musicInfo = info.musicInfo || {}\n  const quality = qualityMap[info.type]\n  if (!quality) return Promise.reject(new Error(`unsupported quality: ${info.type}`))\n  return httpPost(API, {\n    hash: musicInfo.hash,\n    album_audio_id: musicInfo.album_audio_id || musicInfo.albumAudioId || null,\n    quality,\n  })\n})\nsend(EVENT_NAMES.inited, {\n  openDevTools: false,\n  sources: {\n    kg: {\n      name: '";

pub const SCRIPT_PART_TAIL: &'static str = "',\n      type: 'music',\n      actions: ['musicUrl'],\n      qualitys: ['128k', '320k', 'flac', 'flac24bit'],\n    },\n  },\n})\n";

/// The script of a source: its name, the runtime API under the public base URL,
/// and the source's runtime token, placed into the fixed script text.
pub open spec fn script_text(name: Seq<char>, base: Seq<char>, token: Seq<char>) -> Seq<char> {
    SCRIPT_PART_HEAD@ + name + SCRIPT_PART_AFTER_NAME@ + base + SCRIPT_PART_AFTER_BASE@ + token
        + SCRIPT_PART_AFTER_TOKEN@ + name + SCRIPT_PART_TAIL@
}

/// The script ends by naming the source and declaring what it serves: music,
/// the `musicUrl` action, and the qualities `128k`, `320k`, `flac` and
/// `flac24bit`, the same that its `qualityMap` passes on and that the runtime
/// route accepts.
pub proof fn law_script_declares_all_qualities(name: Seq<char>, base: Seq<char>, token: Seq<char>)
    ensures
        ({
            let s = script_text(name, base, token);
            let tail = "',\n      type: 'music',\n      actions: ['musicUrl'],\n      qualitys: ['128k', '320k', 'flac', 'flac24bit'],\n    },\n  },\n})\n"@;
            &&& s.len() >= name.len() + tail.len()
            &&& s.skip(s.len() - tail.len()) == tail
            &&& s.subrange(s.len() - tail.len() - name.len(), s.len() - tail.len()) == name
        }),
{
    let s = script_text(name, base, token);
    let tail = SCRIPT_PART_TAIL@;
    let front = SCRIPT_PART_HEAD@ + name + SCRIPT_PART_AFTER_NAME@ + base + SCRIPT_PART_AFTER_BASE@ + token
        + SCRIPT_PART_AFTER_TOKEN@;
    assert(s == front + name + tail);
    assert(s.skip(s.len() - tail.len()) =~= tail);
    assert(s.subrange(s.len() - tail.len() - name.len(), s.len() - tail.len()) =~= name);
}

/// The script posts to the runtime API under the public base URL and carries
/// the runtime token: the base URL is followed by the API path and then the
/// token, as `{base}/api/v1/runtime/music-url'` and `const TOKEN = '{token}`.
pub proof fn law_script_carries_api_and_token(name: Seq<char>, base: Seq<char>, token: Seq<char>)
    ensures
        ({
            let s = script_text(name, base, token);
            let piece = base + "/api/v1/runtime/music-url'\nconst TOKEN = '"@ + token;
            exists|k: int| 0 <= k && k + piece.len() <= s.len() && #[trigger] s.subrange(k, k + piece.len()) == piece
        }),
{
    let s = script_text(name, base, token);
    let piece = base + SCRIPT_PART_AFTER_BASE@ + token;
    let front = SCRIPT_PART_HEAD@ + name + SCRIPT_PART_AFTER_NAME@;
    let rest = SCRIPT_PART_AFTER_TOKEN@ + name + SCRIPT_PART_TAIL@;
    assert(s =~= front + piece + rest);
    let k = front.len() as int;
    assert(s.subrange(k, k + piece.len()) =~= piece);
}

/// The script text for a source name, public base URL and runtime token.
pub fn render_script(source_name: &str, public_base_url: &str, runtime_token: &str) -> (r: String)
    ensures
        r@ == script_text(source_name@, public_base_url@, runtime_token@),
{
    let mut s = String::from_str(SCRIPT_PART_HEAD);
    s.append(source_name);
    s.append(SCRIPT_PART_AFTER_NAME);
    s.append(public_base_url);
    s.append(SCRIPT_PART_AFTER_BASE);
    s.append(runtime_token);
    s.append(SCRIPT_PART_AFTER_TOKEN);
    s.append(source_name);
    s.append(SCRIPT_PART_TAIL);
    s
}

/// The script of a source, once the source of the token has been looked up:
/// an unknown token and a disabled source are refused, else the script names
/// the source by the configured prefix and carries the source's runtime token.
pub fn script_for_source(source: Option<Source>, public_base_url: &str, source_name_prefix: &str) -> (r: Result<String, AppError>)
    ensures
        match source {
            None => r matches Err(e) && e.code == ErrorCode::SourceNotFound,
            Some(s) => if !s.enabled {
                r matches Err(e) && e.code == ErrorCode::SourceDisabled
            } else {
                r matches Ok(t) && t@ == script_text(source_name_prefix@, public_base_url@, s.runtime_token@)
            },
        },
{
    match source {
        None => Err(AppError::source_not_found()),
        Some(s) => {
            if !s.enabled {
                return Err(AppError::source_disabled());
            }
            Ok(render_script(source_name_prefix, public_base_url, s.runtime_token.as_str()))
        },
    }
}

} // verus!
