//! The two records that the GPU program reads each frame, and their bytes.
//!
//! A record is a run of 32-bit words; each word is written with its least
//! significant byte first.

use vstd::prelude::*;
use crate::math::{Ext2, Scalar, Vec3};

verus! {

/// The size of the camera record in bytes.
pub const CAMERA_RECORD_SIZE: usize = 64;

/// The size of the system record in bytes.
pub const SYSTEM_RECORD_SIZE: usize = 24;

/// The pose of the camera and its projection, as the renderer is told them.
#[derive(Copy, Clone, Debug, PartialEq, Eq)]
pub struct CameraDescriptor {
    pub location: Vec3<Scalar>,
    pub at: Vec3<Scalar>,
    pub dir: Vec3<Scalar>,
    pub right: Vec3<Scalar>,
    pub up: Vec3<Scalar>,
    pub projection_extent: Ext2<Scalar>,
    pub near: Scalar,
}

/// What the GPU program is told of the frame besides the camera.
#[derive(Copy, Clone, Debug, PartialEq, Eq)]
pub struct SystemData {
    /// The size of the presented image in pixels.
    pub resolution: Ext2<Scalar>,
    /// Seconds, wrapped to a bounded range.
    pub time: Scalar,
    /// The accumulation counter of the frame.
    pub static_frame_index: u32,
    /// One over the resolution.
    pub texel_size: Ext2<Scalar>,
}

/// The four bytes of a word, least significant first.
pub open spec fn word_bytes(word: u32) -> Seq<u8> {
    seq![
        (word & 0xff) as u8,
        ((word >> 8) & 0xff) as u8,
        ((word >> 16) & 0xff) as u8,
        ((word >> 24) & 0xff) as u8,
    ]
}

/// The bytes of a run of words: those of each word in turn.
pub open spec fn words_bytes(words: Seq<u32>) -> Seq<u8> {
    Seq::new(4 * words.len(), |i: int| word_bytes(words[i / 4])[i % 4])
}

/// Writes a run of words as bytes.
pub fn words_to_bytes(words: &Vec<u32>) -> (bytes: Vec<u8>)
    ensures
        bytes@ == words_bytes(words@),
{
    let mut bytes: Vec<u8> = Vec::new();
    let mut i: usize = 0;
    while i < words.len()
        invariant
            i <= words.len(),
            bytes@.len() == 4 * i,
            forall|j: int| 0 <= j < 4 * i ==> bytes@[j] == word_bytes(words@[j / 4])[j % 4],
        decreases words.len() - i,
    {
        let word: u32 = words[i];
        assert(word & 0xff < 256 && (word >> 8) & 0xff < 256 && (word >> 16) & 0xff < 256 && (word
            >> 24) & 0xff < 256) by (bit_vector);
        bytes.push((word & 0xff) as u8);
        bytes.push(((word >> 8) & 0xff) as u8);
        bytes.push(((word >> 16) & 0xff) as u8);
        bytes.push(((word >> 24) & 0xff) as u8);
        i += 1;
    }
    assert(bytes@ =~= words_bytes(words@));
    bytes
}

impl CameraDescriptor {
    /// The words of the camera record. A vector of three starts each row of
    /// four words, and a scalar fills the row: nothing after the location,
    /// `near` after the direction, the projection's width after `right`, its
    /// height after `up`. The look-at point is not part of the record.
    pub open spec fn spec_words(&self) -> Seq<u32> {
        seq![
            self.location.x.0,
            self.location.y.0,
            self.location.z.0,
            0u32,
            self.dir.x.0,
            self.dir.y.0,
            self.dir.z.0,
            self.near.0,
            self.right.x.0,
            self.right.y.0,
            self.right.z.0,
            self.projection_extent.w.0,
            self.up.x.0,
            self.up.y.0,
            self.up.z.0,
            self.projection_extent.h.0,
        ]
    }

    /// The bytes of the camera record.
    pub open spec fn spec_record_bytes(&self) -> Seq<u8> {
        words_bytes(self.spec_words())
    }

    /// The words of the camera record, in the order of the record.
    pub fn words(&self) -> (words: Vec<u32>)
        ensures
            words@ == self.spec_words(),
    {
        let words = vec![
            self.location.x.0,
            self.location.y.0,
            self.location.z.0,
            0u32,
            self.dir.x.0,
            self.dir.y.0,
            self.dir.z.0,
            self.near.0,
            self.right.x.0,
            self.right.y.0,
            self.right.z.0,
            self.projection_extent.w.0,
            self.up.x.0,
            self.up.y.0,
            self.up.z.0,
            self.projection_extent.h.0,
        ];
        assert(words@ =~= self.spec_words());
        words
    }

    /// The camera record as the bytes to upload.
    pub fn record_bytes(&self) -> (bytes: Vec<u8>)
        ensures
            bytes@ == self.spec_record_bytes(),
            bytes@.len() == CAMERA_RECORD_SIZE,
    {
        let words = self.words();
        words_to_bytes(&words)
    }
}

impl SystemData {
    /// The words of the system record: the resolution, the time, the
    /// accumulation counter, the texel size.
    pub open spec fn spec_words(&self) -> Seq<u32> {
        seq![
            self.resolution.w.0,
            self.resolution.h.0,
            self.time.0,
            self.static_frame_index,
            self.texel_size.w.0,
            self.texel_size.h.0,
        ]
    }

    /// The bytes of the system record.
    pub open spec fn spec_record_bytes(&self) -> Seq<u8> {
        words_bytes(self.spec_words())
    }

    /// The words of the system record, in the order of the record.
    pub fn words(&self) -> (words: Vec<u32>)
        ensures
            words@ == self.spec_words(),
    {
        let words = vec![
            self.resolution.w.0,
            self.resolution.h.0,
            self.time.0,
            self.static_frame_index,
            self.texel_size.w.0,
            self.texel_size.h.0,
        ];
        assert(words@ =~= self.spec_words());
        words
    }

    /// The system record as the bytes to upload.
    pub fn record_bytes(&self) -> (bytes: Vec<u8>)
        ensures
            bytes@ == self.spec_record_bytes(),
            bytes@.len() == SYSTEM_RECORD_SIZE,
    {
        let words = self.words();
        words_to_bytes(&words)
    }
}

/// The number of milliseconds after which the time sent to the GPU program
/// starts again from 0: 2 to the 24th, so that every value is exact in single
/// precision.
pub const TIME_WRAP_MILLIS: u32 = 0x100_0000;

/// The time of the system record in milliseconds: the clock's milliseconds
/// wrapped to a bounded range.
pub fn wrap_millis(millis: u128) -> (wrapped: u32)
    ensures
        wrapped == millis % (TIME_WRAP_MILLIS as u128),
        wrapped < TIME_WRAP_MILLIS,
{
    assert(millis & 0xff_ffff == millis % 0x100_0000 && millis & 0xff_ffff < 0x100_0000)
        by (bit_vector);
    (millis & 0xff_ffff) as u32
}

} // verus!
