use std::collections::HashMap;
use vstd::prelude::*;

verus! {

broadcast use vstd::std_specs::hash::group_hash_axioms;

#[verifier::external_type_specification]
#[verifier::external_body]
pub struct ExHoundError(hound::Error);

/// The 16-bit samples that hound decodes from the bytes of a WAV file, or
/// `None` where it refuses them.
pub uninterp spec fn wav_samples(bytes: Seq<u8>) -> Option<Seq<i16>>;

/// Relies on hound's `WavReader::new` and `WavReader::samples::<i16>`: the
/// samples decoded from an in-memory WAV file, which depend on its bytes alone.
#[verifier::external_body]
fn decode_wav(data: &[u8]) -> (r: Result<Vec<i16>, hound::Error>)
    ensures
        match r {
            Ok(v) => wav_samples(data@) == Some(v@),
            Err(_) => wav_samples(data@) is None,
        },
{
    let mut reader = hound::WavReader::new(std::io::Cursor::new(data))?;
    reader.samples::<i16>().collect()
}

/// Why a voice recording could not be loaded.
#[derive(Debug, Copy, Clone, PartialEq, Eq, Structural)]
pub enum DecodeError {
    /// The bytes are not a WAV file of 16-bit samples.
    MalformedWav,
}

/// A decoded voice recording with its read cursor.
#[derive(Clone)]
pub struct WavFile {
    current_sample: usize,
    samples: Vec<i16>,
}

impl View for WavFile {
    /// The samples, and the position of the next one to be read.
    type V = (Seq<i16>, nat);

    closed spec fn view(&self) -> (Seq<i16>, nat) {
        (self.samples@, self.current_sample as nat)
    }
}

impl WavFile {
    /// Decodes a WAV file; reading starts at its first sample.
    pub fn new(data: &[u8]) -> (r: Result<WavFile, DecodeError>)
        ensures
            match r {
                Ok(w) => wav_samples(data@) == Some(w@.0) && w@.1 == 0,
                Err(e) => wav_samples(data@) is None && e == DecodeError::MalformedWav,
            },
    {
        match decode_wav(data) {
            Ok(samples) => Ok(WavFile { current_sample: 0, samples }),
            Err(_) => Err(DecodeError::MalformedWav),
        }
    }

    /// A recording made of samples that are already decoded.
    pub fn from_samples(samples: Vec<i16>) -> (r: WavFile)
        ensures
            r@ == (samples@, 0nat),
    {
        WavFile { current_sample: 0, samples }
    }

    /// The next sample, or `None` once the recording is exhausted.
    pub fn get_next_sample(&mut self) -> (r: Option<i16>)
        ensures
            final(self)@.0 == old(self)@.0,
            old(self)@.1 < old(self)@.0.len() ==> r == Some(old(self)@.0[old(self)@.1 as int])
                && final(self)@.1 == old(self)@.1 + 1,
            old(self)@.1 >= old(self)@.0.len() ==> r is None && final(self)@.1 == old(self)@.1,
    {
        if self.current_sample >= self.samples.len() {
            None
        } else {
            let sample = self.samples[self.current_sample];
            self.current_sample = self.current_sample + 1;
            Some(sample)
        }
    }
}

/// Decoded voice recordings keyed by a small integer, each with its own cursor.
#[derive(Clone)]
pub struct VoiceStore {
    files: HashMap<i32, WavFile>,
}

/// What a store holds after `entries` are loaded into `m` in order, those
/// that do not decode being skipped.
pub open spec fn load_each(m: Map<i32, (Seq<i16>, nat)>, entries: Seq<(i32, Vec<u8>)>) -> Map<
    i32,
    (Seq<i16>, nat),
>
    decreases entries.len(),
{
    if entries.len() == 0 {
        m
    } else {
        let before = load_each(m, entries.drop_last());
        let (key, bytes) = entries.last();
        match wav_samples(bytes@) {
            Some(s) => before.insert(key, (s, 0nat)),
            None => before,
        }
    }
}

/// What a store holds after the recordings `data` are loaded into `m`, the
/// one at index `i` under key `i + 1`, those that do not decode being skipped.
pub open spec fn load_numbered(m: Map<i32, (Seq<i16>, nat)>, data: Seq<Vec<u8>>) -> Map<
    i32,
    (Seq<i16>, nat),
>
    decreases data.len(),
{
    if data.len() == 0 {
        m
    } else {
        let before = load_numbered(m, data.drop_last());
        match wav_samples(data.last()@) {
            Some(s) => before.insert(data.len() as i32, (s, 0nat)),
            None => before,
        }
    }
}

/// Keys, in order, of the entries whose bytes do not decode.
pub open spec fn failed_entry_keys(entries: Seq<(i32, Vec<u8>)>) -> Seq<i32>
    decreases entries.len(),
{
    if entries.len() == 0 {
        seq![]
    } else {
        let before = failed_entry_keys(entries.drop_last());
        match wav_samples(entries.last().1@) {
            Some(_) => before,
            None => before.push(entries.last().0),
        }
    }
}

/// Keys, in order, of the recordings of `data` that do not decode.
pub open spec fn failed_keys(data: Seq<Vec<u8>>) -> Seq<i32>
    decreases data.len(),
{
    if data.len() == 0 {
        seq![]
    } else {
        let before = failed_keys(data.drop_last());
        match wav_samples(data.last()@) {
            Some(_) => before,
            None => before.push(data.len() as i32),
        }
    }
}

/// Reading the next sample under `key` from a store that holds `m`: the
/// sample, or `None` where the key is absent or its recording exhausted, and
/// what the store holds afterwards.
pub open spec fn read_next(m: Map<i32, (Seq<i16>, nat)>, key: i32) -> (Option<i16>, Map<
    i32,
    (Seq<i16>, nat),
>) {
    if m.contains_key(key) && m[key].1 < m[key].0.len() {
        (Some(m[key].0[m[key].1 as int]), m.insert(key, (m[key].0, m[key].1 + 1)))
    } else {
        (None, m)
    }
}

impl View for VoiceStore {
    /// Each key's samples and read position.
    type V = Map<i32, (Seq<i16>, nat)>;

    closed spec fn view(&self) -> Map<i32, (Seq<i16>, nat)> {
        self.files@.map_values(|w: WavFile| w@)
    }
}

impl VoiceStore {
    /// A store that holds no recording.
    pub fn new() -> (r: VoiceStore)
        ensures
            r@ == Map::<i32, (Seq<i16>, nat)>::empty(),
    {
        let r = VoiceStore { files: HashMap::new() };
        assert(r@ =~= Map::<i32, (Seq<i16>, nat)>::empty());
        r
    }

    /// Puts `file` under `key`, replacing what was there.
    pub fn insert(&mut self, key: i32, file: WavFile)
        ensures
            final(self)@ == old(self)@.insert(key, file@),
    {
        self.files.insert(key, file);
        assert(self@ =~= old(self)@.insert(key, file@));
    }

    /// Decodes `data` and puts it under `key`, reading from its start; a
    /// recording that does not decode leaves the store as it was.
    pub fn load(&mut self, key: i32, data: &[u8]) -> (r: Result<(), DecodeError>)
        ensures
            r is Ok <==> wav_samples(data@) is Some,
            match wav_samples(data@) {
                Some(s) => final(self)@ == old(self)@.insert(key, (s, 0nat)),
                None => final(self)@ == old(self)@ && r == Err::<(), DecodeError>(
                    DecodeError::MalformedWav,
                ),
            },
    {
        match WavFile::new(data) {
            Ok(file) => {
                self.insert(key, file);
                Ok(())
            },
            Err(e) => Err(e),
        }
    }

    /// Whether a recording is stored under `key`.
    pub fn contains_key(&self, key: i32) -> (r: bool)
        ensures
            r == self@.contains_key(key),
    {
        self.files.contains_key(&key)
    }

    /// The next sample of the recording under `key`, advancing its cursor;
    /// `None` when no recording is stored there or it is exhausted.
    pub fn next_sample(&mut self, key: i32) -> (r: Option<i16>)
        ensures
            (r, final(self)@) == read_next(old(self)@, key),
    {
        match self.files.remove(&key) {
            Some(mut file) => {
                let r = file.get_next_sample();
                self.files.insert(key, file);
                assert(self@ =~= old(self)@.insert(key, file@));
                proof {
                    if r is None {
                        assert(self@ =~= old(self)@);
                    }
                }
                r
            },
            None => {
                assert(self@ =~= old(self)@);
                None
            },
        }
    }
}

/// Loads each `(key, bytes)` entry in order, skipping those that do not
/// decode; returns the keys of the skipped entries, in order.
pub fn load_wav_files(store: &mut VoiceStore, data_map: &Vec<(i32, Vec<u8>)>) -> (r: Vec<i32>)
    ensures
        final(store)@ == load_each(old(store)@, data_map@),
        r@ == failed_entry_keys(data_map@),
{
    let mut failed: Vec<i32> = Vec::new();
    let mut i: usize = 0;
    while i < data_map.len()
        invariant
            0 <= i <= data_map@.len(),
            store@ == load_each(old(store)@, data_map@.take(i as int)),
            failed@ == failed_entry_keys(data_map@.take(i as int)),
        decreases data_map@.len() - i,
    {
        let (key, bytes) = &data_map[i];
        assert(data_map@.take(i as int + 1).drop_last() =~= data_map@.take(i as int));
        match store.load(*key, bytes.as_slice()) {
            Ok(()) => {},
            Err(_) => {
                failed.push(*key);
            },
        }
        i = i + 1;
    }
    assert(data_map@.take(i as int) =~= data_map@);
    failed
}

/// Loads the recordings `wav_data`, the one at index `i` under key `i + 1`,
/// skipping those that do not decode; returns the keys that were skipped.
pub fn init_wav_files_from_bytes(store: &mut VoiceStore, wav_data: &Vec<Vec<u8>>) -> (r: Vec<i32>)
    requires
        wav_data@.len() < i32::MAX,
    ensures
        final(store)@ == load_numbered(old(store)@, wav_data@),
        r@ == failed_keys(wav_data@),
{
    let mut failed: Vec<i32> = Vec::new();
    let mut i: usize = 0;
    while i < wav_data.len()
        invariant
            0 <= i <= wav_data@.len() < i32::MAX,
            store@ == load_numbered(old(store)@, wav_data@.take(i as int)),
            failed@ == failed_keys(wav_data@.take(i as int)),
        decreases wav_data@.len() - i,
    {
        let key = (i + 1) as i32;
        assert(wav_data@.take(i as int + 1).drop_last() =~= wav_data@.take(i as int));
        match store.load(key, wav_data[i].as_slice()) {
            Ok(()) => {},
            Err(_) => {
                failed.push(key);
            },
        }
        i = i + 1;
    }
    assert(wav_data@.take(i as int) =~= wav_data@);
    failed
}

} // verus!
