use vstd::prelude::*;

verus! {

/// Process-wide configuration, loaded once at startup and never mutated:
/// the single accepted credential pair, the token signing secret and the salt.
pub struct AppState {
    pub user_name: String,
    pub password: String,
    pub secret_value: String,
    pub salt_key: String,
}

} // verus!
