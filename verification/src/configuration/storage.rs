//! Framing of the settings in flash storage, and the cached settings.
//!
//! The serialised settings are stored followed by the CRC-32/ISCSI checksum
//! of their bytes, least significant byte first. A stored image is accepted
//! only where that checksum matches.

use vstd::prelude::*;

use crate::configuration::settings::{debug_settings, NetworkSettings, Settings};

verus! {

/// Bytes that the checksum takes after the payload.
pub const CRC_SUM_SIZE: usize = 4;

/// Why reading or writing the stored settings failed.
#[derive(Debug, Clone, Copy, PartialEq, Eq, Structural)]
pub enum StorageError {
    /// The flash could not be read.
    StorageRead,
    /// The flash could not be erased.
    StorageErase,
    /// The flash could not be written.
    StorageWrite,
    /// The settings and their checksum do not fit in the storage.
    Serialization,
    /// The stored image is truncated or its checksum does not match.
    Deserialization,
}

/// The CRC-32/ISCSI (Castagnoli) checksum of `data`.
pub uninterp spec fn crc32_iscsi(data: Seq<u8>) -> u32;

/// `crc::Crc::<u32>::checksum` with the `CRC_32_ISCSI` algorithm.
#[verifier::external_body]
fn checksum(data: &[u8]) -> (r: u32)
    ensures
        r == crc32_iscsi(data@),
{
    crc::Crc::<u32>::new(&crc::CRC_32_ISCSI).checksum(data)
}

/// The four bytes of `v`, least significant first.
pub open spec fn le_bytes(v: u32) -> Seq<u8> {
    seq![
        (v % 0x100) as u8,
        ((v / 0x100) % 0x100) as u8,
        ((v / 0x1_0000) % 0x100) as u8,
        ((v / 0x100_0000) % 0x100) as u8,
    ]
}

/// The number whose bytes, least significant first, are `b`.
pub open spec fn from_le_bytes(b: Seq<u8>) -> int
    recommends
        b.len() == 4,
{
    b[0] + b[1] * 0x100 + b[2] * 0x1_0000 + b[3] * 0x100_0000
}

/// The stored image of `payload`: the payload followed by its checksum.
pub open spec fn framed(payload: Seq<u8>) -> Seq<u8> {
    payload + le_bytes(crc32_iscsi(payload))
}

/// Whether `image` holds a payload of `len` bytes followed by its checksum.
pub open spec fn frame_valid(image: Seq<u8>, len: int) -> bool {
    &&& 0 <= len
    &&& len + CRC_SUM_SIZE <= image.len()
    &&& from_le_bytes(image.subrange(len, len + CRC_SUM_SIZE)) == crc32_iscsi(image.take(len))
}

pub proof fn lemma_le_bytes_roundtrip(v: u32)
    ensures
        from_le_bytes(le_bytes(v)) == v,
{
    let b0 = v % 0x100;
    let b1 = (v / 0x100) % 0x100;
    let b2 = (v / 0x1_0000) % 0x100;
    let b3 = (v / 0x100_0000) % 0x100;
    assert(b0 + b1 * 0x100 + b2 * 0x1_0000 + b3 * 0x100_0000 == v) by (nonlinear_arith)
        requires
            b0 == v % 0x100,
            b1 == (v / 0x100) % 0x100,
            b2 == (v / 0x1_0000) % 0x100,
            b3 == (v / 0x100_0000) % 0x100,
            v <= 0xFFFF_FFFF,
    ;
}

/// Builds the stored image of a serialised `payload` for a storage of
/// `capacity` bytes; fails when payload and checksum do not fit.
pub fn frame_payload(payload: &[u8], capacity: usize) -> (r: Result<Vec<u8>, StorageError>)
    ensures
        payload@.len() + CRC_SUM_SIZE <= capacity ==> (r matches Ok(image) && image@ == framed(
            payload@,
        )),
        payload@.len() + CRC_SUM_SIZE > capacity ==> r == Err::<Vec<u8>, StorageError>(
            StorageError::Serialization,
        ),
{
    if payload.len() > capacity || capacity - payload.len() < CRC_SUM_SIZE {
        return Err(StorageError::Serialization);
    }
    let crc = checksum(payload);
    let mut image: Vec<u8> = Vec::new();
    let mut i: usize = 0;
    while i < payload.len()
        invariant
            i <= payload@.len(),
            image@ == payload@.take(i as int),
        decreases payload@.len() - i,
    {
        image.push(payload[i]);
        assert(payload@.take(i + 1) =~= payload@.take(i as int).push(payload@[i as int]));
        i += 1;
    }
    assert(payload@.take(i as int) =~= payload@);
    image.push((crc % 0x100) as u8);
    image.push(((crc / 0x100) % 0x100) as u8);
    image.push(((crc / 0x1_0000) % 0x100) as u8);
    image.push(((crc / 0x100_0000) % 0x100) as u8);
    assert(image@ =~= framed(payload@));
    Ok(image)
}

/// Checks that `image` holds a payload of `len` bytes, the length that
/// deserialising it consumed, followed by the payload's checksum.
pub fn check_frame(image: &[u8], len: usize) -> (r: Result<(), StorageError>)
    ensures
        frame_valid(image@, len as int) ==> r is Ok,
        !frame_valid(image@, len as int) ==> r == Err::<(), StorageError>(
            StorageError::Deserialization,
        ),
{
    if len > image.len() || image.len() - len < CRC_SUM_SIZE {
        return Err(StorageError::Deserialization);
    }
    let stored: u64 = image[len] as u64 + image[len + 1] as u64 * 0x100 + image[len + 2] as u64
        * 0x1_0000 + image[len + 3] as u64 * 0x100_0000;
    let mut payload: Vec<u8> = Vec::new();
    let mut i: usize = 0;
    while i < len
        invariant
            len <= image@.len(),
            i <= len,
            payload@ == image@.take(i as int),
        decreases len - i,
    {
        payload.push(image[i]);
        assert(image@.take(i + 1) =~= image@.take(i as int).push(image@[i as int]));
        i += 1;
    }
    let crc = checksum(payload.as_slice());
    let ghost window = image@.subrange(len as int, len + CRC_SUM_SIZE);
    assert(window[0] == image@[len as int] && window[1] == image@[len + 1] && window[2]
        == image@[len + 2] && window[3] == image@[len + 3]);
    if stored == crc as u64 {
        Ok(())
    } else {
        Err(StorageError::Deserialization)
    }
}

/// A stored image is always accepted for its own payload, whatever
/// follows it in the storage.
pub proof fn lemma_framed_image_is_valid(payload: Seq<u8>, tail: Seq<u8>)
    ensures
        frame_valid(framed(payload) + tail, payload.len() as int),
{
    let image = framed(payload) + tail;
    let n = payload.len() as int;
    assert(image.take(n) =~= payload);
    assert(image.subrange(n, n + CRC_SUM_SIZE) =~= le_bytes(crc32_iscsi(payload)));
    lemma_le_bytes_roundtrip(crc32_iscsi(payload));
}

/// The settings that the device starts with, and whether they must be
/// written back: the stored settings where they could be loaded, and the
/// build's settings (else the factory settings), to be saved, where not.
pub fn initial_settings(loaded: Result<Settings, StorageError>) -> (r: (Settings, bool))
    ensures
        loaded is Ok ==> r.0 == loaded->Ok_0 && !r.1,
        loaded is Err ==> r.0.network_settings.is_factory() && r.0.settings_version == 1 && r.1,
{
    match loaded {
        Ok(settings) => (settings, false),
        Err(_) => {
            let debug = debug_settings();
            let settings = match debug {
                Some(s) => s,
                None => Settings::new(),
            };
            (settings, true)
        },
    }
}

/// The settings held in memory, which reads and writes of the storage go
/// through.
pub struct ConfigurationStorage {
    settings: Settings,
}

impl ConfigurationStorage {
    /// The settings currently held.
    pub closed spec fn current(&self) -> Settings {
        self.settings
    }

    /// A cache holding `initial`.
    pub fn new(initial: Settings) -> (r: Self)
        ensures
            r.current() == initial,
    {
        ConfigurationStorage { settings: initial }
    }

    /// Replaces the held settings.
    pub fn set_settings(&mut self, settings: Settings)
        ensures
            final(self).current() == settings,
    {
        self.settings = settings;
    }

    /// A copy of the held settings.
    pub fn get_settings(&self) -> (r: Settings)
        ensures
            r.same_as(&self.current()),
    {
        self.settings.copy()
    }

    /// Replaces the network part of the held settings.
    pub fn set_network_settings(&mut self, network_settings: NetworkSettings)
        ensures
            final(self).current().network_settings == network_settings,
            final(self).current().settings_version == old(self).current().settings_version,
    {
        self.settings.network_settings = network_settings;
    }

    /// The settings to be written to the storage.
    pub fn settings(&self) -> (r: &Settings)
        ensures
            *r == self.current(),
    {
        &self.settings
    }

    /// Takes the outcome of loading the storage: loaded settings replace the
    /// held ones and a copy of them is returned; an error leaves the held
    /// settings and is returned.
    pub fn apply_loaded(&mut self, loaded: Result<Settings, StorageError>) -> (r: Result<
        Settings,
        StorageError,
    >)
        ensures
            loaded is Ok ==> final(self).current() == loaded->Ok_0 && (r matches Ok(s)
                && s.same_as(&loaded->Ok_0)),
            loaded is Err ==> final(self).current() == old(self).current() && r == loaded,
    {
        match loaded {
            Ok(settings) => {
                self.settings = settings;
                Ok(self.settings.copy())
            },
            Err(e) => Err(e),
        }
    }
}

} // verus!
