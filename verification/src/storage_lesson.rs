//! Lesson on instance storage: values stored under symbol keys.
use vstd::prelude::*;
use crate::bytes_map::BytesMap;

verus! {

/// The storage key of a symbol: its UTF-8 bytes.
pub open spec fn symbol_key(key: Seq<char>) -> Seq<u8> {
    vstd::utf8::encode_utf8(key)
}

/// Values stored under symbol keys.
pub struct StorageLessonContract {
    pub values: BytesMap<u32>,
}

impl StorageLessonContract {
    pub open spec fn wf(&self) -> bool {
        self.values.wf()
    }

    pub fn new() -> (c: Self)
        ensures
            c.wf(),
            c.values.view() == Map::<Seq<u8>, u32>::empty(),
    {
        StorageLessonContract { values: BytesMap::new() }
    }

    /// Store `val` under `key`.
    pub fn set(&mut self, key: &str, val: u32)
        requires
            old(self).wf(),
        ensures
            final(self).wf(),
            final(self).values.view() == old(self).values.view().insert(symbol_key(key@), val),
    {
        self.values.insert(key.as_bytes_vec(), val);
    }

    /// The value stored under `key`.
    pub fn get(&self, key: &str) -> (r: Option<u32>)
        requires
            self.wf(),
        ensures
            r == (if self.values.view().contains_key(symbol_key(key@)) {
                Some(self.values.view()[symbol_key(key@)])
            } else {
                None
            }),
    {
        let k = key.as_bytes_vec();
        match self.values.get(k.as_slice()) {
            Some(v) => Some(*v),
            None => None,
        }
    }
}

} // verus!
