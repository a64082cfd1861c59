//! Whitelist validation of names, keys, paths and limits handed to the
//! orchestrator. Every rule is stated over the UTF-8 bytes of the input: an
//! ASCII whitelist holds of every character exactly when it holds of every
//! byte, since the bytes of a multi-byte character are all at least 0x80.
use vstd::prelude::*;
use vstd::string::{StrSliceExecFns, StringSliceAdditionalSpecFns};
use crate::bytes::{has_prefix, starts_with};

verus! {

pub const MAX_NAME_LENGTH: usize = 64;

pub const MAX_AGENT_ID_LENGTH: usize = 128;

pub const MAX_TAG_LENGTH: usize = 64;

pub const MAX_ENV_KEY_LENGTH: usize = 128;

pub const MAX_ENV_VALUE_LENGTH: usize = 4096;

pub const MAX_SECRET_VALUE_LENGTH: usize = 65536;

pub const MAX_SECRET_NAME_LENGTH: usize = 64;

pub const MAX_PROJECT_NAME_LENGTH: usize = 128;

pub const MAX_DESCRIPTION_LENGTH: usize = 1024;

pub const MAX_LLM_MODEL_LENGTH: usize = 256;

pub const MAX_MEMORY_MB: u32 = 65536;

/// Why an input was rejected.
#[derive(Debug, Clone, Copy, PartialEq, Eq, Structural)]
pub enum ValidationError {
    Empty,
    TooLong,
    LeadingHyphen,
    InvalidStart,
    InvalidCharacters,
    NullByte,
    NotAbsolute,
    PathTraversal,
    ForbiddenTarget,
    Zero,
    TooLarge,
}

/// The byte sets that the rules accept, beside ASCII letters and digits.
#[derive(Debug, Clone, Copy, PartialEq, Eq, Structural)]
pub enum Charset {
    /// `_` and `-`
    Name,
    /// `-`, `:` and `_`
    AgentId,
    /// `-`, `_` and `/`
    Tag,
    /// `_` only
    EnvKey,
    /// `_`, `-` and `.`
    SecretName,
    /// `-`, `_`, `.`, `:` and `/`
    Model,
}

pub open spec fn is_ascii_digit(c: u8) -> bool {
    ('0' as u8) <= c <= ('9' as u8)
}

pub open spec fn is_ascii_alpha(c: u8) -> bool {
    (('a' as u8) <= c <= ('z' as u8)) || (('A' as u8) <= c <= ('Z' as u8))
}

pub open spec fn is_ascii_alnum(c: u8) -> bool {
    is_ascii_digit(c) || is_ascii_alpha(c)
}

pub open spec fn charset_allows(set: Charset, c: u8) -> bool {
    is_ascii_alnum(c) || match set {
        Charset::Name => c == ('_' as u8) || c == ('-' as u8),
        Charset::AgentId => c == ('-' as u8) || c == (':' as u8) || c == ('_' as u8),
        Charset::Tag => c == ('-' as u8) || c == ('_' as u8) || c == ('/' as u8),
        Charset::EnvKey => c == ('_' as u8),
        Charset::SecretName => c == ('_' as u8) || c == ('-' as u8) || c == ('.' as u8),
        Charset::Model => c == ('-' as u8) || c == ('_' as u8) || c == ('.' as u8) || c == (':' as u8) || c == ('/' as u8),
    }
}

/// Every byte from `start` on is in `set`.
pub open spec fn all_allowed_from(b: Seq<u8>, start: int, set: Charset) -> bool {
    forall|i: int| start <= i < b.len() ==> charset_allows(set, #[trigger] b[i])
}

pub open spec fn has_byte(b: Seq<u8>, c: u8) -> bool {
    exists|i: int| 0 <= i < b.len() && b[i] == c
}

/// `b` holds `x` immediately followed by `y` somewhere.
pub open spec fn has_pair(b: Seq<u8>, x: u8, y: u8) -> bool {
    exists|i: int| 0 <= i < b.len() - 1 && #[trigger] b[i] == x && b[i + 1] == y
}

/// The common shape of a whitelisted identifier: non-empty, at most `max`
/// bytes, every byte in `set`.
pub open spec fn identifier_check(b: Seq<u8>, max: int, set: Charset) -> Result<(), ValidationError> {
    if b.len() == 0 {
        Err(ValidationError::Empty)
    } else if b.len() > max {
        Err(ValidationError::TooLong)
    } else if !all_allowed_from(b, 0, set) {
        Err(ValidationError::InvalidCharacters)
    } else {
        Ok(())
    }
}

pub open spec fn container_name_check(b: Seq<u8>) -> Result<(), ValidationError> {
    if b.len() == 0 {
        Err(ValidationError::Empty)
    } else if b.len() > MAX_NAME_LENGTH {
        Err(ValidationError::TooLong)
    } else if b[0] == ('-' as u8) {
        Err(ValidationError::LeadingHyphen)
    } else if !all_allowed_from(b, 0, Charset::Name) {
        Err(ValidationError::InvalidCharacters)
    } else {
        Ok(())
    }
}

pub open spec fn env_key_check(b: Seq<u8>) -> Result<(), ValidationError> {
    if b.len() == 0 {
        Err(ValidationError::Empty)
    } else if b.len() > MAX_ENV_KEY_LENGTH {
        Err(ValidationError::TooLong)
    } else if !(is_ascii_alpha(b[0]) || b[0] == ('_' as u8)) {
        Err(ValidationError::InvalidStart)
    } else if !all_allowed_from(b, 1, Charset::EnvKey) {
        Err(ValidationError::InvalidCharacters)
    } else {
        Ok(())
    }
}

/// A free-text field: bounded in length, no NUL byte.
pub open spec fn text_check(b: Seq<u8>, max: int) -> Result<(), ValidationError> {
    if b.len() > max {
        Err(ValidationError::TooLong)
    } else if has_byte(b, 0) {
        Err(ValidationError::NullByte)
    } else {
        Ok(())
    }
}

pub open spec fn secret_value_check(b: Seq<u8>) -> Result<(), ValidationError> {
    if b.len() == 0 {
        Err(ValidationError::Empty)
    } else if b.len() > MAX_SECRET_VALUE_LENGTH {
        Err(ValidationError::TooLong)
    } else {
        Ok(())
    }
}

pub open spec fn secret_name_check(b: Seq<u8>) -> Result<(), ValidationError> {
    match identifier_check(b, MAX_SECRET_NAME_LENGTH as int, Charset::SecretName) {
        Err(e) => Err(e),
        Ok(()) => if has_pair(b, ('.' as u8), ('.' as u8)) || has_byte(b, ('/' as u8)) || has_byte(b, ('\\' as u8)) {
            Err(ValidationError::PathTraversal)
        } else {
            Ok(())
        },
    }
}

/// The container paths that no mount may target, nor any path under them.
pub open spec fn forbidden_targets() -> Seq<Seq<u8>> {
    seq![
        seq![('/' as u8), ('e' as u8), ('t' as u8), ('c' as u8), ('/' as u8), ('p' as u8), ('a' as u8), ('s' as u8), ('s' as u8), ('w' as u8), ('d' as u8)],
        seq![('/' as u8), ('e' as u8), ('t' as u8), ('c' as u8), ('/' as u8), ('s' as u8), ('h' as u8), ('a' as u8), ('d' as u8), ('o' as u8), ('w' as u8)],
        seq![('/' as u8), ('r' as u8), ('o' as u8), ('o' as u8), ('t' as u8)],
        seq![
            ('/' as u8), ('v' as u8), ('a' as u8), ('r' as u8), ('/' as u8), ('r' as u8), ('u' as u8), ('n' as u8), ('/' as u8), ('d' as u8), ('o' as u8), ('c' as u8), ('k' as u8), ('e' as u8),
            ('r' as u8), ('.' as u8), ('s' as u8), ('o' as u8), ('c' as u8), ('k' as u8),
        ],
        seq![
            ('/' as u8), ('v' as u8), ('a' as u8), ('r' as u8), ('/' as u8), ('r' as u8), ('u' as u8), ('n' as u8), ('/' as u8), ('c' as u8), ('o' as u8), ('n' as u8), ('t' as u8), ('a' as u8),
            ('i' as u8), ('n' as u8), ('e' as u8), ('r' as u8), ('d' as u8), ('.' as u8), ('s' as u8), ('o' as u8), ('c' as u8), ('k' as u8),
        ],
        seq![('/' as u8), ('p' as u8), ('r' as u8), ('o' as u8), ('c' as u8)],
        seq![('/' as u8), ('s' as u8), ('y' as u8), ('s' as u8)],
    ]
}

pub open spec fn container_target_check(b: Seq<u8>) -> Result<(), ValidationError> {
    if b.len() == 0 {
        Err(ValidationError::Empty)
    } else if b[0] != ('/' as u8) {
        Err(ValidationError::NotAbsolute)
    } else if has_pair(b, ('.' as u8), ('.' as u8)) {
        Err(ValidationError::PathTraversal)
    } else if has_byte(b, 0) {
        Err(ValidationError::NullByte)
    } else if exists|k: int|
        0 <= k < forbidden_targets().len() && has_prefix(b, #[trigger] forbidden_targets()[k]) {
        Err(ValidationError::ForbiddenTarget)
    } else {
        Ok(())
    }
}

/// Whether `c` is alphabetic or numeric in Unicode.
pub uninterp spec fn unicode_alphanumeric(c: char) -> bool;

/// Relies on char::is_alphanumeric, whose answer depends on `c` alone.
#[verifier::external_body]
fn is_alphanumeric(c: char) -> (r: bool)
    ensures
        r == unicode_alphanumeric(c),
{
    c.is_alphanumeric()
}

pub open spec fn project_char_ok(c: char) -> bool {
    unicode_alphanumeric(c) || c == ' ' || c == '-' || c == '_'
}

/// A project name: 1 to 128 bytes of Unicode letters and digits, spaces,
/// `-` and `_`.
pub open spec fn project_name_check(chars: Seq<char>, b: Seq<u8>) -> Result<(), ValidationError> {
    if chars.len() == 0 {
        Err(ValidationError::Empty)
    } else if b.len() > MAX_PROJECT_NAME_LENGTH {
        Err(ValidationError::TooLong)
    } else if !(forall|i: int| 0 <= i < chars.len() ==> project_char_ok(#[trigger] chars[i])) {
        Err(ValidationError::InvalidCharacters)
    } else {
        Ok(())
    }
}

/// The checks on a volume source that need no filesystem: non-empty, no
/// `..`, no NUL byte.
pub open spec fn volume_source_check(b: Seq<u8>) -> Result<(), ValidationError> {
    if b.len() == 0 {
        Err(ValidationError::Empty)
    } else if has_pair(b, ('.' as u8), ('.' as u8)) {
        Err(ValidationError::PathTraversal)
    } else if has_byte(b, 0) {
        Err(ValidationError::NullByte)
    } else {
        Ok(())
    }
}

pub open spec fn memory_check(mb: u32) -> Result<(), ValidationError> {
    if mb == 0 {
        Err(ValidationError::Zero)
    } else if mb > MAX_MEMORY_MB {
        Err(ValidationError::TooLarge)
    } else {
        Ok(())
    }
}

fn byte_allowed(set: Charset, c: u8) -> (r: bool)
    ensures
        r == charset_allows(set, c),
{
    let alnum = (('0' as u8) <= c && c <= ('9' as u8)) || (('a' as u8) <= c && c <= ('z' as u8)) || (('A' as u8) <= c && c <= ('Z' as u8));
    alnum || match set {
        Charset::Name => c == ('_' as u8) || c == ('-' as u8),
        Charset::AgentId => c == ('-' as u8) || c == (':' as u8) || c == ('_' as u8),
        Charset::Tag => c == ('-' as u8) || c == ('_' as u8) || c == ('/' as u8),
        Charset::EnvKey => c == ('_' as u8),
        Charset::SecretName => c == ('_' as u8) || c == ('-' as u8) || c == ('.' as u8),
        Charset::Model => c == ('-' as u8) || c == ('_' as u8) || c == ('.' as u8) || c == (':' as u8) || c == ('/' as u8),
    }
}

fn all_allowed(b: &[u8], start: usize, set: Charset) -> (r: bool)
    ensures
        r == all_allowed_from(b@, start as int, set),
{
    let mut i: usize = start;
    while i < b.len()
        invariant
            start <= i,
            forall|j: int| start <= j < i && j < b@.len() ==> charset_allows(set, #[trigger] b@[j]),
        decreases b@.len() - i,
    {
        if !byte_allowed(set, b[i]) {
            return false;
        }
        i = i + 1;
    }
    true
}

fn contains_byte(b: &[u8], c: u8) -> (r: bool)
    ensures
        r == has_byte(b@, c),
{
    let mut i: usize = 0;
    while i < b.len()
        invariant
            i <= b@.len(),
            forall|j: int| 0 <= j < i ==> b@[j] != c,
        decreases b@.len() - i,
    {
        if b[i] == c {
            return true;
        }
        i = i + 1;
    }
    false
}

fn contains_pair(b: &[u8], x: u8, y: u8) -> (r: bool)
    ensures
        r == has_pair(b@, x, y),
{
    if b.len() < 2 {
        return false;
    }
    let mut i: usize = 0;
    while i < b.len() - 1
        invariant
            b@.len() >= 2,
            forall|j: int| 0 <= j < i && j < b@.len() - 1 ==> !(#[trigger] b@[j] == x && b@[j + 1] == y),
        decreases b@.len() - i,
    {
        if b[i] == x && b[i + 1] == y {
            return true;
        }
        i = i + 1;
    }
    false
}

fn check_identifier(name: &str, max: usize, set: Charset) -> (r: Result<(), ValidationError>)
    ensures
        r == identifier_check(name.spec_bytes(), max as int, set),
{
    let b = name.as_bytes();
    if b.len() == 0 {
        Err(ValidationError::Empty)
    } else if b.len() > max {
        Err(ValidationError::TooLong)
    } else if !all_allowed(b, 0, set) {
        Err(ValidationError::InvalidCharacters)
    } else {
        Ok(())
    }
}

fn check_text(text: &str, max: usize) -> (r: Result<(), ValidationError>)
    ensures
        r == text_check(text.spec_bytes(), max as int),
{
    let b = text.as_bytes();
    if b.len() > max {
        Err(ValidationError::TooLong)
    } else if contains_byte(b, 0) {
        Err(ValidationError::NullByte)
    } else {
        Ok(())
    }
}

/// A container name: 1 to 64 bytes of ASCII letters, digits, `_` and `-`,
/// not starting with `-`.
pub fn validate_container_name(name: &str) -> (r: Result<(), ValidationError>)
    ensures
        r == container_name_check(name.spec_bytes()),
{
    let b = name.as_bytes();
    if b.len() == 0 {
        Err(ValidationError::Empty)
    } else if b.len() > MAX_NAME_LENGTH {
        Err(ValidationError::TooLong)
    } else if b[0] == ('-' as u8) {
        Err(ValidationError::LeadingHyphen)
    } else if !all_allowed(b, 0, Charset::Name) {
        Err(ValidationError::InvalidCharacters)
    } else {
        Ok(())
    }
}

/// An agent id (a hex string, a UUID or a container id): 1 to 128 bytes of
/// ASCII letters, digits, `-`, `:` and `_`.
pub fn validate_agent_id(id: &str) -> (r: Result<(), ValidationError>)
    ensures
        r == identifier_check(id.spec_bytes(), MAX_AGENT_ID_LENGTH as int, Charset::AgentId),
{
    check_identifier(id, MAX_AGENT_ID_LENGTH, Charset::AgentId)
}

/// A project name: 1 to 128 bytes of Unicode letters and digits, spaces,
/// `-` and `_`.
pub fn validate_project_name(name: &str) -> (r: Result<(), ValidationError>)
    ensures
        r == project_name_check(name@, name.spec_bytes()),
{
    if name.is_empty() {
        return Err(ValidationError::Empty);
    }
    if name.as_bytes().len() > MAX_PROJECT_NAME_LENGTH {
        return Err(ValidationError::TooLong);
    }
    let n = name.unicode_len();
    let mut i: usize = 0;
    while i < n
        invariant
            n == name@.len(),
            n > 0,
            name.spec_bytes().len() <= MAX_PROJECT_NAME_LENGTH,
            i <= n,
            forall|j: int| 0 <= j < i ==> project_char_ok(#[trigger] name@[j]),
        decreases n - i,
    {
        let c = name.get_char(i);
        if !(is_alphanumeric(c) || c == ' ' || c == '-' || c == '_') {
            assert(!project_char_ok(name@[i as int]));
            return Err(ValidationError::InvalidCharacters);
        }
        i = i + 1;
    }
    Ok(())
}

/// A tag: 1 to 64 bytes of ASCII letters, digits, `-`, `_` and `/`.
pub fn validate_tag(tag: &str) -> (r: Result<(), ValidationError>)
    ensures
        r == identifier_check(tag.spec_bytes(), MAX_TAG_LENGTH as int, Charset::Tag),
{
    check_identifier(tag, MAX_TAG_LENGTH, Charset::Tag)
}

/// An environment variable key: 1 to 128 bytes, a letter or `_` first, then
/// ASCII letters, digits and `_`.
pub fn validate_env_key(key: &str) -> (r: Result<(), ValidationError>)
    ensures
        r == env_key_check(key.spec_bytes()),
{
    let b = key.as_bytes();
    if b.len() == 0 {
        return Err(ValidationError::Empty);
    }
    if b.len() > MAX_ENV_KEY_LENGTH {
        return Err(ValidationError::TooLong);
    }
    let first = b[0];
    let alpha = (('a' as u8) <= first && first <= ('z' as u8)) || (('A' as u8) <= first && first <= ('Z' as u8));
    if !alpha && first != ('_' as u8) {
        return Err(ValidationError::InvalidStart);
    }
    if !all_allowed(b, 1, Charset::EnvKey) {
        return Err(ValidationError::InvalidCharacters);
    }
    Ok(())
}

/// An environment variable value: at most 4096 bytes, no NUL byte.
pub fn validate_env_value(value: &str) -> (r: Result<(), ValidationError>)
    ensures
        r == text_check(value.spec_bytes(), MAX_ENV_VALUE_LENGTH as int),
{
    check_text(value, MAX_ENV_VALUE_LENGTH)
}

/// A secret value: 1 to 65536 bytes.
pub fn validate_secret_value(value: &str) -> (r: Result<(), ValidationError>)
    ensures
        r == secret_value_check(value.spec_bytes()),
{
    let n = value.as_bytes().len();
    if n == 0 {
        Err(ValidationError::Empty)
    } else if n > MAX_SECRET_VALUE_LENGTH {
        Err(ValidationError::TooLong)
    } else {
        Ok(())
    }
}

/// A secret name, safe as a file name: 1 to 64 bytes of ASCII letters,
/// digits, `_`, `-` and `.`, and no `..`.
pub fn validate_secret_name(name: &str) -> (r: Result<(), ValidationError>)
    ensures
        r == secret_name_check(name.spec_bytes()),
{
    check_identifier(name, MAX_SECRET_NAME_LENGTH, Charset::SecretName)?;
    let b = name.as_bytes();
    if contains_pair(b, ('.' as u8), ('.' as u8)) || contains_byte(b, ('/' as u8)) || contains_byte(b, ('\\' as u8)) {
        return Err(ValidationError::PathTraversal);
    }
    Ok(())
}

fn forbidden_target(k: usize) -> (r: Vec<u8>)
    requires
        k < forbidden_targets().len(),
    ensures
        r@ == forbidden_targets()[k as int],
{
    let r = if k == 0 {
        vec![('/' as u8), ('e' as u8), ('t' as u8), ('c' as u8), ('/' as u8), ('p' as u8), ('a' as u8), ('s' as u8), ('s' as u8), ('w' as u8), ('d' as u8)]
    } else if k == 1 {
        vec![('/' as u8), ('e' as u8), ('t' as u8), ('c' as u8), ('/' as u8), ('s' as u8), ('h' as u8), ('a' as u8), ('d' as u8), ('o' as u8), ('w' as u8)]
    } else if k == 2 {
        vec![('/' as u8), ('r' as u8), ('o' as u8), ('o' as u8), ('t' as u8)]
    } else if k == 3 {
        vec![
            ('/' as u8), ('v' as u8), ('a' as u8), ('r' as u8), ('/' as u8), ('r' as u8), ('u' as u8), ('n' as u8), ('/' as u8), ('d' as u8), ('o' as u8), ('c' as u8), ('k' as u8), ('e' as u8),
            ('r' as u8), ('.' as u8), ('s' as u8), ('o' as u8), ('c' as u8), ('k' as u8),
        ]
    } else if k == 4 {
        vec![
            ('/' as u8), ('v' as u8), ('a' as u8), ('r' as u8), ('/' as u8), ('r' as u8), ('u' as u8), ('n' as u8), ('/' as u8), ('c' as u8), ('o' as u8), ('n' as u8), ('t' as u8), ('a' as u8),
            ('i' as u8), ('n' as u8), ('e' as u8), ('r' as u8), ('d' as u8), ('.' as u8), ('s' as u8), ('o' as u8), ('c' as u8), ('k' as u8),
        ]
    } else if k == 5 {
        vec![('/' as u8), ('p' as u8), ('r' as u8), ('o' as u8), ('c' as u8)]
    } else {
        vec![('/' as u8), ('s' as u8), ('y' as u8), ('s' as u8)]
    };
    assert(r@ =~= forbidden_targets()[k as int]);
    r
}

/// A mount target inside a container: absolute, without `..` or NUL, and
/// not under a system path such as `/etc/shadow`, `/proc` or the Docker
/// socket.
pub fn validate_container_target(target: &str) -> (r: Result<(), ValidationError>)
    ensures
        r == container_target_check(target.spec_bytes()),
{
    let b = target.as_bytes();
    if b.len() == 0 {
        return Err(ValidationError::Empty);
    }
    if b[0] != ('/' as u8) {
        return Err(ValidationError::NotAbsolute);
    }
    if contains_pair(b, ('.' as u8), ('.' as u8)) {
        return Err(ValidationError::PathTraversal);
    }
    if contains_byte(b, 0) {
        return Err(ValidationError::NullByte);
    }
    let mut k: usize = 0;
    while k < 7
        invariant
            b@ == target.spec_bytes(),
            b@.len() > 0,
            b@[0] == ('/' as u8),
            !has_pair(b@, ('.' as u8), ('.' as u8)),
            !has_byte(b@, 0),
            forbidden_targets().len() == 7,
            k <= 7,
            forall|j: int| 0 <= j < k ==> !has_prefix(b@, #[trigger] forbidden_targets()[j]),
        decreases 7 - k,
    {
        let p = forbidden_target(k);
        if starts_with(b, p.as_slice()) {
            assert(has_prefix(b@, forbidden_targets()[k as int]));
            return Err(ValidationError::ForbiddenTarget);
        }
        k = k + 1;
    }
    Ok(())
}

/// A volume source path before it is resolved on disk: non-empty, without
/// `..` and without NUL.
pub fn validate_volume_source(source: &str) -> (r: Result<(), ValidationError>)
    ensures
        r == volume_source_check(source.spec_bytes()),
{
    let b = source.as_bytes();
    if b.len() == 0 {
        Err(ValidationError::Empty)
    } else if contains_pair(b, '.' as u8, '.' as u8) {
        Err(ValidationError::PathTraversal)
    } else if contains_byte(b, 0) {
        Err(ValidationError::NullByte)
    } else {
        Ok(())
    }
}

/// An LLM model name: 1 to 256 bytes of ASCII letters, digits, `-`, `_`,
/// `.`, `:` and `/`.
pub fn validate_llm_model(model: &str) -> (r: Result<(), ValidationError>)
    ensures
        r == identifier_check(model.spec_bytes(), MAX_LLM_MODEL_LENGTH as int, Charset::Model),
{
    check_identifier(model, MAX_LLM_MODEL_LENGTH, Charset::Model)
}

/// A description: at most 1024 bytes, no NUL byte.
pub fn validate_description(desc: &str) -> (r: Result<(), ValidationError>)
    ensures
        r == text_check(desc.spec_bytes(), MAX_DESCRIPTION_LENGTH as int),
{
    check_text(desc, MAX_DESCRIPTION_LENGTH)
}

/// A memory limit in megabytes: from 1 to 65536.
pub fn validate_memory_mb(memory_mb: u32) -> (r: Result<(), ValidationError>)
    ensures
        r == memory_check(memory_mb),
{
    if memory_mb == 0 {
        Err(ValidationError::Zero)
    } else if memory_mb > MAX_MEMORY_MB {
        Err(ValidationError::TooLarge)
    } else {
        Ok(())
    }
}

} // verus!
