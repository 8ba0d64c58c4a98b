//! A place that may hold a value.

use crate::types::alias::ScBytes;
use vstd::prelude::*;

verus! {

/// A common interface for places that may hold a value.
pub trait Proxy: Sized {
    /// The value stored in the proxy.
    type Value: View;

    /// Whether the proxy holds a value.
    spec fn present(&self) -> bool;

    /// What the proxy hands out: the value that it holds, or the empty value
    /// of the kind where it holds none.
    spec fn held(&self) -> <Self::Value as View>::V;

    /// Returns `true` if the proxy contains a value.
    fn has(&self) -> (has: bool)
        ensures
            has == self.present(),
    ;

    /// Returns the stored value.
    fn get(&self) -> (value: Self::Value)
        ensures
            value@ == self.held(),
    ;

    /// Returns the stored value if present, otherwise `None`.
    fn opt(&self) -> (value: Option<Self::Value>)
        ensures
            match value {
                Some(value) => self.present() && value@ == self.held(),
                None => !self.present(),
            },
    {
        if self.has() {
            Some(self.get())
        } else {
            None
        }
    }
}

/// A common interface for places whose value can be set.
pub trait ProxyMut: Proxy {
    /// Sets the stored value.
    fn set(&mut self, value: &Self::Value)
        ensures
            final(self).present(),
            final(self).held() == value@,
    ;
}

impl Proxy for Option<i64> {
    type Value = i64;

    open spec fn present(&self) -> bool {
        self.is_some()
    }

    open spec fn held(&self) -> i64 {
        match *self {
            Some(value) => value,
            None => 0,
        }
    }

    fn has(&self) -> (has: bool) {
        assert(self.present() == self.is_some());
        self.is_some()
    }

    fn get(&self) -> (value: i64) {
        assert(self.is_some() ==> self.held() == self.unwrap());
        match *self {
            Some(value) => value,
            None => 0,
        }
    }
}

impl ProxyMut for Option<i64> {
    fn set(&mut self, value: &i64) {
        *self = Some(*value);
        assert(self.present() && self.held() == *value);
    }
}

impl Proxy for Option<ScBytes> {
    type Value = ScBytes;

    open spec fn present(&self) -> bool {
        self.is_some()
    }

    open spec fn held(&self) -> Seq<u8> {
        match *self {
            Some(value) => value@,
            None => Seq::<u8>::empty(),
        }
    }

    fn has(&self) -> (has: bool) {
        assert(self.present() == self.is_some());
        self.is_some()
    }

    fn get(&self) -> (value: ScBytes) {
        assert(self.is_some() ==> self.held() == self.unwrap()@);
        match self {
            Some(value) => value.clone(),
            None => Vec::new(),
        }
    }
}

impl ProxyMut for Option<ScBytes> {
    fn set(&mut self, value: &ScBytes) {
        *self = Some(value.clone());
        assert(self.present() && self.held() == value@);
    }
}

} // verus!
