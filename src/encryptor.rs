use crate::cipher::{
    hash_string, master_seed_of, segment_bounds, segment_count, segment_count_of, segment_end,
    segment_seed, segment_seeds, segment_start, transform, transform_of,
};
use vstd::prelude::*;
use vstd::utf8::encode_utf8;

verus! {

/// One unit of parallel work: segment `index` covers the bytes
/// `[start, end)` of the file and its generator is seeded with `seed`.
#[derive(Clone, Copy, Debug, PartialEq, Eq, Structural)]
pub struct Segment {
    pub index: u64,
    pub start: u64,
    pub end: u64,
    pub seed: u64,
}

/// An encryption run: the source path, the destination path and the password.
pub struct Encryptor {
    pub input_file: String,
    pub output_file: String,
    pub keyword: String,
}

impl Encryptor {
    pub fn new(input_file: String, output_file: String, keyword: String) -> (r: Self)
        ensures
            r.input_file == input_file,
            r.output_file == output_file,
            r.keyword == keyword,
    {
        Self { input_file, output_file, keyword }
    }

    /// The master seed that the password determines.
    pub fn master_seed(&self) -> (r: u64)
        ensures
            r as nat == master_seed_of(encode_utf8(self.keyword@)),
    {
        hash_string(self.keyword.as_str())
    }

    /// Plans the work for a source of `file_size` bytes: one segment per
    /// index in order, each with its byte range and its seed, all seeds drawn
    /// in segment order from one generator before any segment is processed.
    pub fn plan(&self, file_size: u64) -> (r: Vec<Segment>)
        ensures
            r@.len() == segment_count_of(file_size as nat),
            forall|i: int|
                0 <= i < r@.len() ==> #[trigger] r@[i] == (Segment {
                    index: i as u64,
                    start: segment_start(i as nat) as u64,
                    end: segment_end(file_size as nat, i as nat) as u64,
                    seed: segment_seed(
                        master_seed_of(encode_utf8(self.keyword@)) as u64,
                        i as nat,
                    ),
                }),
    {
        let master = self.master_seed();
        let count = segment_count(file_size);
        let seeds = segment_seeds(master, count);
        let mut segments: Vec<Segment> = Vec::new();
        let mut i: u64 = 0;
        while i < count
            invariant
                count == segment_count_of(file_size as nat),
                seeds@.len() == count,
                forall|k: int| 0 <= k < count ==> seeds@[k] == segment_seed(master, k as nat),
                i <= count,
                segments@.len() == i,
                forall|k: int|
                    0 <= k < i ==> #[trigger] segments@[k] == (Segment {
                        index: k as u64,
                        start: segment_start(k as nat) as u64,
                        end: segment_end(file_size as nat, k as nat) as u64,
                        seed: segment_seed(master, k as nat),
                    }),
            decreases count - i,
        {
            let (start, end) = segment_bounds(file_size, i);
            segments.push(Segment { index: i, start, end, seed: seeds[i as usize] });
            i = i + 1;
        }
        segments
    }

    /// The cipher applied to bytes held in memory, under this run's password.
    pub fn transform_bytes(&self, data: &[u8]) -> (r: Vec<u8>)
        ensures
            r@ == transform_of(data@, encode_utf8(self.keyword@)),
    {
        transform(data, self.keyword.as_str())
    }
}

} // verus!
