use pndev::table::resolve;
use pndev::table::ResolveError;

#[test]
fn absent_table_is_table_not_found() {
    assert_eq!(resolve(None, "start"), Err(ResolveError::TableNotFound));
    assert_eq!(resolve(None, "anything"), Err(ResolveError::TableNotFound));
}

#[test]
fn nested_value_is_action_malformed() {
    let text = "start = { nested = 1 }".to_string();
    assert_eq!(
        resolve(Some(text.as_str()), "start"),
        Err(ResolveError::ActionMalformed)
    );
}

#[test]
fn integer_value_is_action_malformed() {
    let text = "start = 5".to_string();
    assert_eq!(
        resolve(Some(text.as_str()), "start"),
        Err(ResolveError::ActionMalformed)
    );
}

#[test]
fn string_value_resolves_verbatim() {
    let text = "start = \"bundle exec rails s\"\nprepare = \"rake db:setup\"".to_string();
    assert_eq!(
        resolve(Some(text.as_str()), "start"),
        Ok("bundle exec rails s".to_string())
    );
    assert_eq!(
        resolve(Some(text.as_str()), "prepare"),
        Ok("rake db:setup".to_string())
    );
}

#[test]
fn missing_key_is_action_not_found() {
    let text = "other = \"x\"".to_string();
    assert_eq!(
        resolve(Some(text.as_str()), "start"),
        Err(ResolveError::ActionNotFound)
    );
}

#[test]
fn unparseable_table_is_table_invalid() {
    let text = "this is == not [ valid toml".to_string();
    assert_eq!(
        resolve(Some(text.as_str()), "start"),
        Err(ResolveError::TableInvalid)
    );
}

#[test]
fn empty_table_is_action_not_found() {
    let text = String::new();
    assert_eq!(
        resolve(Some(text.as_str()), "scratch"),
        Err(ResolveError::ActionNotFound)
    );
}
