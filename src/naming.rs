use vstd::prelude::*;

use rand::Rng;

use crate::config::{str_eq, DropConfig};
use crate::text::join2;

verus! {

pub open spec fn is_alphanumeric(c: char) -> bool {
    ('a' <= c && c <= 'z') || ('A' <= c && c <= 'Z') || ('0' <= c && c <= '9')
}

/// `len` characters, each a letter or a digit.
pub open spec fn is_random_word(s: Seq<char>, len: nat) -> bool {
    s.len() == len && forall|i: int| 0 <= i < s.len() ==> is_alphanumeric(#[trigger] s[i])
}

/// Relies on rand's `Alphanumeric` distribution over `thread_rng`: `len` draws,
/// each from `A-Z`, `a-z` and `0-9`.
#[verifier::external_body]
pub(crate) fn random_alphanumeric(len: usize) -> (r: String)
    ensures
        is_random_word(r@, len as nat),
{
    rand::thread_rng().sample_iter(rand::distributions::Alphanumeric).take(len).map(char::from).collect()
}

/// The position of the first `.` at or after `i`, or the length.
pub open spec fn dot_from(s: Seq<char>, i: int) -> int
    decreases s.len() - i,
{
    if i >= s.len() {
        s.len() as int
    } else if s[i] == '.' {
        i
    } else {
        dot_from(s, i + 1)
    }
}

/// What stands before the first `.`.
pub open spec fn stem_of(s: Seq<char>) -> Seq<char> {
    s.subrange(0, dot_from(s, 0))
}

/// What stands after the first `.`, if there is one.
pub open spec fn suffix_of(s: Seq<char>) -> Option<Seq<char>> {
    if dot_from(s, 0) < s.len() {
        Some(s.subrange(dot_from(s, 0) + 1, s.len() as int))
    } else {
        None
    }
}

fn first_dot(s: &str) -> (r: usize)
    ensures
        r as int == dot_from(s@, 0),
        r <= s@.len(),
{
    let n = s.unicode_len();
    let mut i: usize = 0;
    while i < n
        invariant
            i <= n,
            n == s@.len(),
            dot_from(s@, 0) == dot_from(s@, i as int),
        decreases n - i,
    {
        if s.get_char(i) == '.' {
            return i;
        }
        i += 1;
    }
    i
}

/// The part of `name` before its first `.`.
pub fn stem(name: &str) -> (r: &str)
    ensures
        r@ == stem_of(name@),
{
    let d = first_dot(name);
    name.substring_char(0, d)
}

/// The part of `name` after its first `.`, if there is a `.`.
pub fn suffix(name: &str) -> (r: Option<String>)
    ensures
        match r {
            Some(v) => suffix_of(name@) == Some(v@),
            None => suffix_of(name@) is None,
        },
{
    let d = first_dot(name);
    let n = name.unicode_len();
    if d < n {
        Some(String::from_str(name.substring_char(d + 1, n)))
    } else {
        None
    }
}

/// The base of a name built from an existing one, given the strategy and the random word.
pub open spec fn base_from_existing(strategy: Seq<char>, name: Seq<char>, word: Seq<char>) -> Seq<char> {
    if strategy == "exact"@ {
        stem_of(name)
    } else if strategy == "append"@ {
        stem_of(name) + "--"@ + word
    } else if strategy == "replace"@ {
        word
    } else {
        word + "--"@ + stem_of(name)
    }
}

/// The base of the file name.
pub open spec fn filename_base(config: &DropConfig, recommended: Option<String>, word: Seq<char>) -> Seq<char> {
    match config.filename {
        Some(f) => base_from_existing(config.filename_strategy@, f@, word),
        None => match recommended {
            Some(r) => base_from_existing(config.filename_strategy@, r@, word),
            None => word,
        },
    }
}

/// The extension of the file name, if any.
pub open spec fn filename_extension(
    config: &DropConfig,
    recommended: Option<String>,
    recommended_ext: Option<String>,
) -> Option<Seq<char>> {
    match config.extension {
        Some(e) => Some(e@),
        None => match config.filename {
            Some(f) => match suffix_of(f@) {
                Some(s) => Some(s),
                None => match recommended_ext {
                    Some(e) => Some(e@),
                    None => None,
                },
            },
            None => match recommended_ext {
                Some(e) => Some(e@),
                None => match recommended {
                    Some(r) => match suffix_of(r@) {
                        Some(s) => Some(s),
                        None => Some(Seq::empty()),
                    },
                    None => None,
                },
            },
        },
    }
}

/// The file name: the base, then `.` and the extension where there is a non-empty one.
pub open spec fn filename(
    config: &DropConfig,
    recommended: Option<String>,
    recommended_ext: Option<String>,
    word: Seq<char>,
) -> Seq<char> {
    let base = filename_base(config, recommended, word);
    match filename_extension(config, recommended, recommended_ext) {
        Some(e) => if e.len() > 0 {
            base + "."@ + e
        } else {
            base
        },
        None => base,
    }
}

/// `word--value`.
pub fn prepend_rand_string(value: &str, word: &str) -> (r: String)
    ensures
        r@ == word@ + "--"@ + value@,
{
    let mut s = join2(word, "--");
    s.append(value);
    s
}

/// `value--word`.
pub fn append_rand_string(value: &str, word: &str) -> (r: String)
    ensures
        r@ == value@ + "--"@ + word@,
{
    let mut s = join2(value, "--");
    s.append(word);
    s
}

/// The base of a name made from `filename` under the configured strategy.
pub fn create_filename_base_from_existing(config: &DropConfig, filename: &str, word: &str) -> (r: String)
    ensures
        r@ == base_from_existing(config.filename_strategy@, filename@, word@),
{
    let base = stem(filename);
    let strategy = config.filename_strategy.as_str();
    if str_eq(strategy, "exact") {
        String::from_str(base)
    } else if str_eq(strategy, "append") {
        append_rand_string(base, word)
    } else if str_eq(strategy, "replace") {
        String::from_str(word)
    } else {
        prepend_rand_string(base, word)
    }
}

/// The base of the file name: from the configured name, else the recommended one,
/// else the random word alone.
pub fn generate_filename_base(config: &DropConfig, recommended: &Option<String>, word: &str) -> (r: String)
    ensures
        r@ == filename_base(config, *recommended, word@),
{
    match &config.filename {
        Some(f) => create_filename_base_from_existing(config, f.as_str(), word),
        None => match recommended {
            Some(r) => create_filename_base_from_existing(config, r.as_str(), word),
            None => String::from_str(word),
        },
    }
}

fn clone_opt(o: &Option<String>) -> (r: Option<String>)
    ensures
        r == *o,
{
    match o {
        Some(s) => Some(s.clone()),
        None => None,
    }
}

/// The extension: the configured one, else that of the configured name, else the
/// recommended one, else that of the recommended name (empty where it has none).
pub fn generate_filename_extension(
    config: &DropConfig,
    recommended: &Option<String>,
    recommended_ext: &Option<String>,
) -> (r: Option<String>)
    ensures
        match r {
            Some(v) => filename_extension(config, *recommended, *recommended_ext) == Some(v@),
            None => filename_extension(config, *recommended, *recommended_ext) is None,
        },
{
    match &config.extension {
        Some(e) => Some(e.clone()),
        None => match &config.filename {
            Some(f) => match suffix(f.as_str()) {
                Some(s) => Some(s),
                None => clone_opt(recommended_ext),
            },
            None => match recommended_ext {
                Some(e) => Some(e.clone()),
                None => match recommended {
                    Some(r) => match suffix(r.as_str()) {
                        Some(s) => Some(s),
                        None => Some(String::new()),
                    },
                    None => None,
                },
            },
        },
    }
}

/// The file name for a random word drawn beforehand.
pub fn generate_filename_with(
    config: &DropConfig,
    recommended: Option<String>,
    recommended_ext: Option<String>,
    word: &str,
) -> (r: String)
    ensures
        r@ == filename(config, recommended, recommended_ext, word@),
{
    let base = generate_filename_base(config, &recommended, word);
    let ext = generate_filename_extension(config, &recommended, &recommended_ext);
    match ext {
        Some(e) => {
            if e.unicode_len() > 0 {
                let mut s = join2(base.as_str(), ".");
                s.append(e.as_str());
                s
            } else {
                base
            }
        },
        None => base,
    }
}

/// The file name, with a fresh random word of the configured length where the
/// strategy asks for one.
pub fn generate_filename(
    config: &DropConfig,
    recommended: Option<String>,
    recommended_ext: Option<String>,
) -> (r: String)
    ensures
        exists|w: Seq<char>|
            is_random_word(w, config.unique_length as nat) && r@ == filename(
                config,
                recommended,
                recommended_ext,
                w,
            ),
{
    let word = random_alphanumeric(config.unique_length);
    generate_filename_with(config, recommended, recommended_ext, word.as_str())
}

/// The address of an uploaded file: on the configured host, else in the bucket.
pub open spec fn drop_url(config: &DropConfig, filename: Seq<char>) -> Seq<char> {
    match config.host {
        Some(h) => "http://"@ + h@ + "/"@ + filename,
        None => "http://s3.amazonaws.com/"@ + config.aws_bucket->Some_0@ + "/"@ + filename,
    }
}

/// The address at which an uploaded file is served.
pub fn create_drop_url(config: &DropConfig, filename: String) -> (r: String)
    requires
        config.host is Some || config.aws_bucket is Some,
    ensures
        r@ == drop_url(config, filename@),
{
    let mut s = match &config.host {
        Some(h) => join2("http://", h.as_str()),
        None => {
            let b = config.aws_bucket.as_ref().unwrap();
            join2("http://s3.amazonaws.com/", b.as_str())
        },
    };
    s.append("/");
    s.append(filename.as_str());
    s
}

} // verus!
