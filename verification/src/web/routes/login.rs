//! Password login: page model and the decision on a submitted password.

use vstd::prelude::*;

use crate::text::{chars_equal_str, chars_of};

verus! {

/// Login page model.
pub struct LoginTemplate {
    pub base_path: String,
    pub error: bool,
}

/// Submitted login form.
pub struct LoginForm {
    pub password: String,
}

/// Where a login with `password` redirects: to the base path (`/` when it is
/// empty) when a password is configured and matches; nowhere (the form is
/// shown again with an error) otherwise.
pub fn login_redirect(expected: &str, password: &str, base_path: &str) -> (r: Option<String>)
    ensures
        r is Some <==> expected@.len() > 0 && password@ == expected@,
        r matches Some(t) ==> t@ == (if base_path@.len() == 0 {
            "/"@
        } else {
            base_path@
        }),
{
    let e = chars_of(expected);
    if e.len() == 0 {
        return None;
    }
    let p = chars_of(password);
    if !chars_equal_str(p.as_slice(), expected) {
        return None;
    }
    let b = chars_of(base_path);
    if b.len() == 0 {
        Some(String::from_str("/"))
    } else {
        Some(String::from_str(base_path))
    }
}

} // verus!
