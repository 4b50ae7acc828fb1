//! Building the advertisement payload that makes the device discoverable.
//!
//! The payload is a sequence of length-tagged structures: a flags entry,
//! a 16-bit service identifier entry, and the device name. The whole
//! payload must fit a 31-byte advertising budget; the fixed entries take
//! 9 bytes, which leaves 22 for the name. A longer name is truncated to
//! its first 22 bytes; truncation is never an error.

use vstd::prelude::*;
use vstd::string::StringSliceAdditionalSpecFns;

verus! {

/// Data-entry type tag for the flags structure.
pub const FLAGS_TYPE: u8 = 0x01;

/// Data-entry type tag for a complete list of 16-bit service identifiers.
pub const SERVICE_UUIDS16_TYPE: u8 = 0x03;

/// Data-entry type tag for the complete local name.
pub const COMPLETE_LOCAL_NAME_TYPE: u8 = 0x09;

/// Flag bit: the device is generally discoverable.
pub const LE_GENERAL_DISCOVERABLE: u8 = 0x02;

/// Flag bit: classic-rate transport is not supported (low-energy only).
pub const BR_EDR_NOT_SUPPORTED: u8 = 0x04;

/// Low byte of the advertised 16-bit service identifier.
pub const SERVICE_UUID_LO: u8 = 0x0f;

/// High byte of the advertised 16-bit service identifier.
pub const SERVICE_UUID_HI: u8 = 0x18;

/// The advertising budget: a payload never exceeds this many bytes.
pub const ADV_DATA_MAX: usize = 31;

/// Longest name that fits beside the 9 bytes of fixed structures.
pub const MAX_NAME_LEN: usize = 22;

/// The name bytes that the payload carries: the whole name when it fits,
/// otherwise its first `MAX_NAME_LEN` bytes.
pub open spec fn truncated_name(name: Seq<u8>) -> Seq<u8> {
    if name.len() <= MAX_NAME_LEN {
        name
    } else {
        name.subrange(0, MAX_NAME_LEN as int)
    }
}

/// The 9 fixed bytes that open every payload: the 3-byte flags structure
/// followed by the 4-byte service-identifier structure and the header of
/// the name structure.
pub open spec fn fixed_prefix(name_len: nat) -> Seq<u8> {
    seq![
        2u8, FLAGS_TYPE, (LE_GENERAL_DISCOVERABLE | BR_EDR_NOT_SUPPORTED) as u8,
        3u8, SERVICE_UUIDS16_TYPE, SERVICE_UUID_LO, SERVICE_UUID_HI,
        (name_len + 1) as u8, COMPLETE_LOCAL_NAME_TYPE,
    ]
}

/// The full advertisement payload for a given name.
pub open spec fn spec_adv_data(name: Seq<u8>) -> Seq<u8> {
    fixed_prefix(truncated_name(name).len()) + truncated_name(name)
}

/// The scan-response payload: the service-identifier structure repeated.
pub open spec fn spec_scan_data() -> Seq<u8> {
    seq![3u8, SERVICE_UUIDS16_TYPE, SERVICE_UUID_LO, SERVICE_UUID_HI]
}

/// Builds the advertisement payload for one device name.
pub struct AdvertiserBuilder<'d> {
    /// Name of the device.
    pub name: &'d str,
}

/// The immutable payload pair that the session loop advertises with.
pub struct Advertiser {
    /// The advertisement payload proper.
    pub advertiser_data: Vec<u8>,
    /// The scan-response payload.
    pub scan_data: Vec<u8>,
}

impl<'d> AdvertiserBuilder<'d> {
    /// Create a new advertiser builder.
    pub fn new(name: &'d str) -> (b: Self)
        ensures
            b.name@ == name@,
    {
        Self { name }
    }

    /// Build the payloads. A name longer than `MAX_NAME_LEN` bytes is
    /// truncated to its first `MAX_NAME_LEN` bytes; this is the only way
    /// the output can differ from the input and it is never an error.
    pub fn build(self) -> (a: Advertiser)
        ensures
            a.advertiser_data@ == spec_adv_data(self.name.spec_bytes()),
            a.advertiser_data@.len() <= ADV_DATA_MAX,
            a.scan_data@ == spec_scan_data(),
    {
        let bytes: Vec<u8> = self.name.as_bytes_vec();
        let name_len: usize = if bytes.len() > MAX_NAME_LEN {
            MAX_NAME_LEN
        } else {
            bytes.len()
        };
        let mut advertiser_data: Vec<u8> = Vec::new();
        advertiser_data.push(2u8);
        advertiser_data.push(FLAGS_TYPE);
        advertiser_data.push(LE_GENERAL_DISCOVERABLE | BR_EDR_NOT_SUPPORTED);
        advertiser_data.push(3u8);
        advertiser_data.push(SERVICE_UUIDS16_TYPE);
        advertiser_data.push(SERVICE_UUID_LO);
        advertiser_data.push(SERVICE_UUID_HI);
        advertiser_data.push((name_len + 1) as u8);
        advertiser_data.push(COMPLETE_LOCAL_NAME_TYPE);
        assert(advertiser_data@ =~= fixed_prefix(truncated_name(self.name.spec_bytes()).len()));
        let mut i: usize = 0;
        while i < name_len
            invariant
                name_len <= bytes.len(),
                name_len <= MAX_NAME_LEN,
                i <= name_len,
                bytes@ == self.name.spec_bytes(),
                advertiser_data@ == fixed_prefix(truncated_name(self.name.spec_bytes()).len())
                    + self.name.spec_bytes().subrange(0, i as int),
            decreases name_len - i,
        {
            advertiser_data.push(bytes[i]);
            i = i + 1;
            assert(advertiser_data@ =~= fixed_prefix(truncated_name(self.name.spec_bytes()).len())
                + self.name.spec_bytes().subrange(0, i as int));
        }
        assert(self.name.spec_bytes().subrange(0, name_len as int)
            =~= truncated_name(self.name.spec_bytes()));
        let mut scan_data: Vec<u8> = Vec::new();
        scan_data.push(3u8);
        scan_data.push(SERVICE_UUIDS16_TYPE);
        scan_data.push(SERVICE_UUID_LO);
        scan_data.push(SERVICE_UUID_HI);
        assert(scan_data@ =~= spec_scan_data());
        Advertiser { advertiser_data, scan_data }
    }
}

/// The name field of the payload is the input name verbatim when the
/// name fits, and exactly its first `MAX_NAME_LEN` bytes otherwise; the
/// whole payload stays within the advertising budget either way.
pub proof fn lemma_advertisement_name_field(name: Seq<u8>)
    ensures
        name.len() <= MAX_NAME_LEN ==> spec_adv_data(name).subrange(9, spec_adv_data(name).len() as int) == name,
        name.len() > MAX_NAME_LEN ==> spec_adv_data(name).subrange(9, spec_adv_data(name).len() as int)
            == name.subrange(0, MAX_NAME_LEN as int),
        spec_adv_data(name).len() == 9 + truncated_name(name).len(),
        spec_adv_data(name).len() <= ADV_DATA_MAX,
{
    assert(spec_adv_data(name).subrange(9, spec_adv_data(name).len() as int)
        =~= truncated_name(name));
}

} // verus!
