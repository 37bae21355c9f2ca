//! The service configuration.

use vstd::prelude::*;

verus! {

/// The settings of a running instance (read from `config.toml`).
#[derive(Debug)]
pub struct Config {
    /// Directory under which every bucket directory lies.
    pub parent_directory: String,
    /// The buckets that can be uploaded to and served from.
    pub buckets: Vec<String>,
    /// Whether a file asked for without an image extension is sent as WebP.
    pub serve_as_webp: bool,
    /// Whether uploads may be resized by `width`/`height` headers.
    pub allow_resizing: bool,
    /// Whether the key administration endpoints answer.
    pub allow_admin: bool,
    /// Database that holds the keys.
    pub db_name: String,
    /// Collection that holds the keys.
    pub collection_name: String,
}

pub struct ConfigView {
    pub parent_directory: Seq<char>,
    pub buckets: Seq<Seq<char>>,
    pub serve_as_webp: bool,
    pub allow_resizing: bool,
    pub allow_admin: bool,
    pub db_name: Seq<char>,
    pub collection_name: Seq<char>,
}

impl View for Config {
    type V = ConfigView;

    open spec fn view(&self) -> ConfigView {
        ConfigView {
            parent_directory: self.parent_directory@,
            buckets: self.buckets@.map_values(|b: String| b@),
            serve_as_webp: self.serve_as_webp,
            allow_resizing: self.allow_resizing,
            allow_admin: self.allow_admin,
            db_name: self.db_name@,
            collection_name: self.collection_name@,
        }
    }
}

impl Config {
    /// Whether `bucket` is one of the configured buckets.
    pub fn has_bucket(&self, bucket: &str) -> (res: bool)
        ensures
            res == self@.buckets.contains(bucket@),
    {
        let wanted = String::from_str(bucket);
        let n = self.buckets.len();
        let mut i: usize = 0;
        while i < n
            invariant
                n == self.buckets@.len(),
                i <= n,
                wanted@ == bucket@,
                forall|j: int| 0 <= j < i ==> self.buckets@[j]@ != bucket@,
            decreases n - i,
        {
            if self.buckets[i] == wanted {
                assert(self@.buckets[i as int] == bucket@);
                return true;
            }
            i = i + 1;
        }
        proof {
            if self@.buckets.contains(bucket@) {
                let k = choose|k: int| 0 <= k < self@.buckets.len() && self@.buckets[k] == bucket@;
                assert(self.buckets@[k]@ == bucket@);
            }
        }
        false
    }
}

} // verus!
