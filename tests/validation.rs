use claw_pen::validation::{
    validate_agent_id, validate_container_name, validate_container_target, validate_description,
    validate_env_key, validate_env_value, validate_llm_model, validate_memory_mb,
    validate_project_name, validate_secret_name, validate_secret_value, validate_tag,
    ValidationError,
};

#[test]
fn test_validate_container_name() {
    assert!(validate_container_name("my-agent").is_ok());
    assert!(validate_container_name("my_agent").is_ok());
    assert!(validate_container_name("agent123").is_ok());
    assert!(validate_container_name("Agent_Test-1").is_ok());

    assert!(validate_container_name("").is_err());
    assert!(validate_container_name("-agent").is_err());
    assert!(validate_container_name("agent name").is_err());
    assert!(validate_container_name("agent;rm -rf /").is_err());
    assert!(validate_container_name("$(whoami)").is_err());
    assert!(validate_container_name(&"a".repeat(65)).is_err());
}

#[test]
fn test_validate_env_key() {
    assert!(validate_env_key("API_KEY").is_ok());
    assert!(validate_env_key("_PRIVATE").is_ok());
    assert!(validate_env_key("myVar123").is_ok());

    assert!(validate_env_key("").is_err());
    assert!(validate_env_key("123KEY").is_err());
    assert!(validate_env_key("MY-KEY").is_err());
}

#[test]
fn container_name_errors_are_distinguished() {
    assert_eq!(validate_container_name(""), Err(ValidationError::Empty));
    assert_eq!(validate_container_name(&"a".repeat(65)), Err(ValidationError::TooLong));
    assert_eq!(validate_container_name(&"a".repeat(64)), Ok(()));
    assert_eq!(validate_container_name("-x"), Err(ValidationError::LeadingHyphen));
    assert_eq!(validate_container_name("naïve"), Err(ValidationError::InvalidCharacters));
}

#[test]
fn env_key_errors_are_distinguished() {
    assert_eq!(validate_env_key("1A"), Err(ValidationError::InvalidStart));
    assert_eq!(validate_env_key("A-B"), Err(ValidationError::InvalidCharacters));
    assert_eq!(validate_env_key(&"A".repeat(129)), Err(ValidationError::TooLong));
    assert_eq!(validate_env_key(&"A".repeat(128)), Ok(()));
}

#[test]
fn identifiers_follow_their_charsets() {
    assert_eq!(validate_agent_id("abc:def-1_2"), Ok(()));
    assert_eq!(validate_agent_id("a/b"), Err(ValidationError::InvalidCharacters));
    assert_eq!(validate_agent_id(&"a".repeat(129)), Err(ValidationError::TooLong));
    assert_eq!(validate_tag("team/backend-1"), Ok(()));
    assert_eq!(validate_tag("a:b"), Err(ValidationError::InvalidCharacters));
    assert_eq!(validate_tag(""), Err(ValidationError::Empty));
    assert_eq!(validate_llm_model("openai/gpt-4.1:latest"), Ok(()));
    assert_eq!(validate_llm_model("model name"), Err(ValidationError::InvalidCharacters));
    assert_eq!(validate_llm_model(&"m".repeat(257)), Err(ValidationError::TooLong));
}

#[test]
fn project_names_allow_unicode_letters() {
    assert_eq!(validate_project_name("Projekt Über 1"), Ok(()));
    assert_eq!(validate_project_name("a.b"), Err(ValidationError::InvalidCharacters));
    assert_eq!(validate_project_name(""), Err(ValidationError::Empty));
    assert_eq!(validate_project_name(&"é".repeat(65)), Err(ValidationError::TooLong));
}

#[test]
fn free_text_rejects_nul_and_length() {
    assert_eq!(validate_env_value("x=1"), Ok(()));
    assert_eq!(validate_env_value("a\0b"), Err(ValidationError::NullByte));
    assert_eq!(validate_env_value(&"v".repeat(4097)), Err(ValidationError::TooLong));
    assert_eq!(validate_description(""), Ok(()));
    assert_eq!(validate_description(&"d".repeat(1025)), Err(ValidationError::TooLong));
    assert_eq!(validate_description("\0"), Err(ValidationError::NullByte));
}

#[test]
fn secrets_are_checked() {
    assert_eq!(validate_secret_value(""), Err(ValidationError::Empty));
    assert_eq!(validate_secret_value(&"s".repeat(65537)), Err(ValidationError::TooLong));
    assert_eq!(validate_secret_value(&"s".repeat(65536)), Ok(()));
    assert_eq!(validate_secret_name("api.key"), Ok(()));
    assert_eq!(validate_secret_name("a..b"), Err(ValidationError::PathTraversal));
    assert_eq!(validate_secret_name("a/b"), Err(ValidationError::InvalidCharacters));
}

#[test]
fn container_targets_are_checked() {
    assert_eq!(validate_container_target("/workspace/data"), Ok(()));
    assert_eq!(validate_container_target(""), Err(ValidationError::Empty));
    assert_eq!(validate_container_target("data"), Err(ValidationError::NotAbsolute));
    assert_eq!(validate_container_target("/a/../etc"), Err(ValidationError::PathTraversal));
    assert_eq!(validate_container_target("/a\0"), Err(ValidationError::NullByte));
    assert_eq!(validate_container_target("/etc/shadow"), Err(ValidationError::ForbiddenTarget));
    assert_eq!(validate_container_target("/proc/1"), Err(ValidationError::ForbiddenTarget));
    assert_eq!(
        validate_container_target("/var/run/docker.sock"),
        Err(ValidationError::ForbiddenTarget)
    );
    assert_eq!(validate_container_target("/etc/hosts"), Ok(()));
}

#[test]
fn memory_limits() {
    assert_eq!(validate_memory_mb(0), Err(ValidationError::Zero));
    assert_eq!(validate_memory_mb(1), Ok(()));
    assert_eq!(validate_memory_mb(65536), Ok(()));
    assert_eq!(validate_memory_mb(65537), Err(ValidationError::TooLarge));
}
