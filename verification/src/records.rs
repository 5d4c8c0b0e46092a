//! Plain records: a rectangle, a user, a colour.

use vstd::prelude::*;
use vstd::string::StringExecFns;
use crate::numerals::{hex_pair, to_hex_pair};

verus! {

/// A rectangle.
pub struct Rectangle {
    pub width: u32,
    pub height: u32,
}

impl Rectangle {
    /// The area of the rectangle. It has to fit in a `u32`.
    pub fn area(&self) -> (area: u32)
        requires
            self.width * self.height <= u32::MAX,
        ensures
            area == self.width * self.height,
    {
        self.width * self.height
    }
}

/// A user of a service.
pub struct User {
    pub username: String,
    pub email: String,
    sign_in_count: u64,
    active: bool,
}

/// A user as the contracts see it.
pub struct UserView {
    pub username: Seq<char>,
    pub email: Seq<char>,
    pub sign_in_count: nat,
    pub active: bool,
}

impl View for User {
    type V = UserView;

    closed spec fn view(&self) -> UserView {
        UserView {
            username: self.username@,
            email: self.email@,
            sign_in_count: self.sign_in_count as nat,
            active: self.active,
        }
    }
}

impl User {
    /// How often the user has signed in.
    pub fn sign_in_count(&self) -> (count: u64)
        ensures
            count == self@.sign_in_count,
    {
        self.sign_in_count
    }

    /// Whether the account is in use.
    pub fn is_active(&self) -> (active: bool)
        ensures
            active == self@.active,
    {
        self.active
    }
}

/// A new user: active, and signed in once.
pub fn build_user(email: String, username: String) -> (user: User)
    ensures
        user@ == (UserView {
            username: username@,
            email: email@,
            sign_in_count: 1,
            active: true,
        }),
{
    User { email, username, active: true, sign_in_count: 1 }
}

/// A colour by its red, green and blue parts.
pub struct Color(pub i32, pub i32, pub i32);

/// The bits of a 32-bit integer read as a number without sign.
pub open spec fn bits_of(part: int) -> nat {
    if part < 0 {
        (part + 0x1_0000_0000) as nat
    } else {
        part as nat
    }
}

/// A colour in the notation of the web: a hash sign, then each part in
/// hexadecimal, two digits wide at least.
pub open spec fn hex_of(red: int, green: int, blue: int) -> Seq<char> {
    "#"@ + hex_pair(bits_of(red)) + hex_pair(bits_of(green)) + hex_pair(bits_of(blue))
}

/// The bits of a 32-bit integer as a number without sign.
fn bits(part: i32) -> (pattern: u32)
    ensures
        pattern == bits_of(part as int),
{
    let wide: i64 = part as i64;
    if wide < 0 {
        (wide + 0x1_0000_0000) as u32
    } else {
        wide as u32
    }
}

/// Writes a colour in the notation of the web.
pub fn rgb_to_hex(c: Color) -> (hex: String)
    ensures
        hex@ == hex_of(c.0 as int, c.1 as int, c.2 as int),
{
    let mut hex: String = String::from_str("#");
    hex.append(to_hex_pair(bits(c.0)).as_str());
    hex.append(to_hex_pair(bits(c.1)).as_str());
    hex.append(to_hex_pair(bits(c.2)).as_str());
    hex
}

} // verus!
