//! A passphrase buffer that is wiped from memory when dropped.
use vstd::prelude::*;
use zeroize::Zeroize;
use zeroize::Zeroizing;

verus! {

/// Text typed by the user that must not linger in memory: a `Zeroizing<String>`
/// from the `zeroize` crate, which overwrites its bytes when dropped.
#[verifier::external_body]
pub struct SecretBuf {
    inner: Zeroizing<String>,
}

/// The characters a [`SecretBuf`] currently holds.
pub uninterp spec fn secret_text(b: SecretBuf) -> Seq<char>;

impl SecretBuf {
    /// `Zeroizing::new(String::new())`: claimed to hold no characters.
    #[verifier::external_body]
    pub fn new() -> (b: SecretBuf)
        ensures
            secret_text(b) == Seq::<char>::empty(),
    {
        SecretBuf { inner: Zeroizing::new(String::new()) }
    }

    /// `Zeroizing::new(s)`: claimed to hold exactly the characters of `s`.
    #[verifier::external_body]
    pub fn from_string(s: String) -> (b: SecretBuf)
        ensures
            secret_text(b) == s@,
    {
        SecretBuf { inner: Zeroizing::new(s) }
    }

    /// `String::push` reached through `Zeroizing`'s `DerefMut`: claimed to append `c`.
    #[verifier::external_body]
    pub fn push(&mut self, c: char)
        ensures
            secret_text(*final(self)) == secret_text(*old(self)).push(c),
    {
        self.inner.push(c)
    }

    /// `String::pop` reached through `DerefMut`: claimed to remove and return the last
    /// character, or to return `None` and change nothing on an empty buffer.
    #[verifier::external_body]
    pub fn pop(&mut self) -> (r: Option<char>)
        ensures
            secret_text(*old(self)).len() == 0 ==> r is None && secret_text(*final(self)) == secret_text(*old(self)),
            secret_text(*old(self)).len() > 0 ==> r == Some(secret_text(*old(self)).last())
                && secret_text(*final(self)) == secret_text(*old(self)).drop_last(),
    {
        self.inner.pop()
    }

    /// `String::clear` reached through `DerefMut`: claimed to leave the buffer empty.
    #[verifier::external_body]
    pub fn clear(&mut self)
        ensures
            secret_text(*final(self)) == Seq::<char>::empty(),
    {
        self.inner.clear()
    }

    /// `Zeroize::zeroize` on the `Zeroizing<String>`: claimed to leave the buffer empty
    /// (the source overwrites the bytes, then clears the string). That the old bytes
    /// are overwritten in memory is not stated.
    #[verifier::external_body]
    pub fn wipe(&mut self)
        ensures
            secret_text(*final(self)) == Seq::<char>::empty(),
    {
        self.inner.zeroize()
    }

    /// `str::is_empty` through `Deref`: claimed true exactly when no characters are held.
    #[verifier::external_body]
    pub fn is_empty(&self) -> (r: bool)
        ensures
            r == (secret_text(*self).len() == 0),
    {
        self.inner.is_empty()
    }

    /// `String == String` through `Deref`: claimed true exactly when both hold the same characters.
    #[verifier::external_body]
    pub fn same_text(&self, other: &SecretBuf) -> (r: bool)
        ensures
            r == (secret_text(*self) == secret_text(*other)),
    {
        *self.inner == *other.inner
    }

    /// `Zeroizing::clone`: claimed to give a new buffer holding the same characters.
    #[verifier::external_body]
    pub fn duplicate(&self) -> (r: SecretBuf)
        ensures
            secret_text(r) == secret_text(*self),
    {
        SecretBuf { inner: self.inner.clone() }
    }

    /// `Deref` to the held `String`, then `String::as_str`: claimed to show the held characters.
    #[verifier::external_body]
    pub fn expose(&self) -> (r: &str)
        ensures
            r@ == secret_text(*self),
    {
        self.inner.as_str()
    }
}

} // verus!
