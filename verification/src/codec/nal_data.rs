//! NAL unit data format: AVCC (length-prefixed) or Annex B (start-code
//! delimited) H.264/H.265 bitstream data.
//!
//! All packets of the pipeline carry a `NalData` variant. The source tags the
//! format; downstream processors match on it where conversion is needed.
use crate::buffer::bytes_of;
use bytes::Bytes;
use vstd::prelude::*;
use vstd::std_specs::convert::FromSpecImpl;

verus! {

/// H.264 / H.265 NAL unit bitstream format.
#[derive(Debug, PartialEq)]
pub enum NalData {
    /// Each NAL unit is prefixed with a 4-byte big-endian length (MP4 / FLV).
    Avcc(Bytes),
    /// Each NAL unit is prefixed with a `00 00 00 01` or `00 00 01` start code
    /// (TS / RTSP).
    AnnexB(Bytes),
}

/// `NalData` with the bytes as a sequence.
#[verifier::ext_equal]
pub enum NalView {
    Avcc(Seq<u8>),
    AnnexB(Seq<u8>),
}

impl NalView {
    /// The bytes regardless of variant.
    pub open spec fn raw(self) -> Seq<u8> {
        match self {
            NalView::Avcc(b) => b,
            NalView::AnnexB(b) => b,
        }
    }
}

impl View for NalData {
    type V = NalView;

    open spec fn view(&self) -> NalView {
        match self {
            NalData::Avcc(b) => NalView::Avcc(bytes_of(*b)),
            NalData::AnnexB(b) => NalView::AnnexB(bytes_of(*b)),
        }
    }
}

impl Clone for NalData {
    fn clone(&self) -> (r: Self)
        ensures
            r@ == self@,
    {
        match self {
            NalData::Avcc(b) => NalData::Avcc(b.clone()),
            NalData::AnnexB(b) => NalData::AnnexB(b.clone()),
        }
    }
}

impl NalData {
    /// The buffer inside, regardless of variant.
    pub open spec fn inner(self) -> Bytes {
        match self {
            NalData::Avcc(b) => b,
            NalData::AnnexB(b) => b,
        }
    }

    /// The raw bytes regardless of variant.
    pub fn as_bytes(&self) -> (r: &Bytes)
        ensures
            *r == self.inner(),
            bytes_of(*r) == self@.raw(),
    {
        match self {
            NalData::Avcc(b) => b,
            NalData::AnnexB(b) => b,
        }
    }

    /// Length of the raw data in bytes.
    pub fn len(&self) -> (r: usize)
        ensures
            r == self@.raw().len(),
    {
        self.as_bytes().len()
    }

    /// Whether the raw data is empty.
    pub fn is_empty(&self) -> (r: bool)
        ensures
            r == (self@.raw().len() == 0),
    {
        self.as_bytes().is_empty()
    }

    /// Consumes self and returns the inner `Bytes`.
    pub fn into_bytes(self) -> (r: Bytes)
        ensures
            r == self.inner(),
            bytes_of(r) == self@.raw(),
    {
        match self {
            NalData::Avcc(b) => b,
            NalData::AnnexB(b) => b,
        }
    }

    /// Whether this data is in AVCC format.
    pub fn is_avcc(&self) -> (r: bool)
        ensures
            r == (self@ is Avcc),
    {
        matches!(self, NalData::Avcc(_))
    }

    /// Whether this data is in Annex B format.
    pub fn is_annex_b(&self) -> (r: bool)
        ensures
            r == (self@ is AnnexB),
    {
        matches!(self, NalData::AnnexB(_))
    }
}

impl From<NalData> for Bytes {
    fn from(d: NalData) -> (r: Bytes) {
        d.into_bytes()
    }
}

impl FromSpecImpl<NalData> for Bytes {
    open spec fn obeys_from_spec() -> bool {
        true
    }

    open spec fn from_spec(d: NalData) -> Bytes {
        d.inner()
    }
}

} // verus!
