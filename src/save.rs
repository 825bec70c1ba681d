use vstd::prelude::*;
use vstd::string::*;
use vstd::utf8::is_ascii_chars;

use crate::text::{format_bssid, hex_joined, lemma_hex_joined_shape};

verus! {

/// Most network addresses remembered; when a new one finds the list full,
/// the list starts over empty.
pub const BSSID_LEN: usize = 1000;

/// Characters in an address's text, such as `0a:1b:2c:3d:4e:5f`.
pub const BSSID_TEXT_LEN: usize = 17;

/// Bytes in one erasable flash sector.
pub const ERASE_SIZE: usize = 4096;

/// The addresses seen lately, as text, in a fixed-capacity list.
#[verifier::external_body]
pub struct BssidList {
    list: heapless::Vec<heapless::String<BSSID_TEXT_LEN>, BSSID_LEN>,
}

/// The texts a list holds, in order.
pub uninterp spec fn bssid_entries(list: BssidList) -> Seq<Seq<char>>;

/// `text` fits one entry of the list.
pub open spec fn fits_entry(text: Seq<char>) -> bool {
    text.len() <= BSSID_TEXT_LEN && is_ascii_chars(text)
}

impl BssidList {
    /// Relies on heapless::Vec::new: a new list is empty.
    #[verifier::external_body]
    fn empty() -> (r: BssidList)
        ensures
            bssid_entries(r) == Seq::<Seq<char>>::empty(),
    {
        BssidList { list: heapless::Vec::new() }
    }

    /// Relies on the length of heapless::Vec's slice, which never exceeds
    /// its capacity.
    #[verifier::external_body]
    fn count(&self) -> (r: usize)
        ensures
            r == bssid_entries(*self).len(),
            r <= BSSID_LEN,
    {
        self.list.len()
    }

    /// Relies on heapless::String::try_from, which refuses text longer than
    /// the entry's capacity, and on the slice's `contains` under heapless
    /// string equality, which compares the text.
    #[verifier::external_body]
    fn holds(&self, text: &str) -> (r: bool)
        ensures
            r == bssid_entries(*self).contains(text@),
    {
        match heapless::String::<BSSID_TEXT_LEN>::try_from(text) {
            Ok(key) => self.list.contains(&key),
            Err(_) => false,
        }
    }

    /// Relies on heapless::String::try_from and heapless::Vec::push: the
    /// text is appended unless it exceeds an entry's capacity or the list is
    /// full, and then nothing changes.
    #[verifier::external_body]
    fn append(&mut self, text: &str) -> (r: bool)
        ensures
            r ==> bssid_entries(*final(self)) == bssid_entries(*old(self)).push(text@),
            !r ==> bssid_entries(*final(self)) == bssid_entries(*old(self)),
            bssid_entries(*old(self)).len() < BSSID_LEN && fits_entry(text@) ==> r,
            bssid_entries(*final(self)).len() <= BSSID_LEN,
    {
        match heapless::String::<BSSID_TEXT_LEN>::try_from(text) {
            Ok(entry) => self.list.push(entry).is_ok(),
            Err(_) => false,
        }
    }

    /// Relies on heapless::Vec::clear: the list becomes empty.
    #[verifier::external_body]
    fn empty_out(&mut self)
        ensures
            bssid_entries(*final(self)) == Seq::<Seq<char>>::empty(),
    {
        self.list.clear();
    }

    /// Relies on indexing heapless::Vec's slice and heapless::String::as_str.
    #[verifier::external_body]
    fn entry(&self, i: usize) -> (r: String)
        requires
            i < bssid_entries(*self).len(),
        ensures
            r@ == bssid_entries(*self)[i as int],
    {
        String::from(self.list[i].as_str())
    }
}

/// What is kept across power cycles: the count of distinct networks seen and
/// the addresses recently seen.
pub struct Save {
    pub wifi_counted: u32,
    pub bssid: BssidList,
}

/// Why saved bytes cannot be written.
#[derive(Clone, Copy, Debug, PartialEq, Eq, Structural)]
pub enum SaveError {
    /// The encoded record does not fit in one flash sector.
    DataTooLarge,
}

impl Save {
    /// A record with nothing counted.
    pub fn new() -> (r: Save)
        ensures
            r.wifi_counted == 0,
            bssid_entries(r.bssid).len() == 0,
    {
        Save { wifi_counted: 0, bssid: BssidList::empty() }
    }

    /// A record from its parts, or `None` when there are more than
    /// `BSSID_LEN` texts or one is not ASCII of at most `BSSID_TEXT_LEN`
    /// characters.
    pub fn from_parts(wifi_counted: u32, texts: &Vec<String>) -> (r: Option<Save>)
        ensures
            r.is_some() <==> texts@.len() <= BSSID_LEN && forall|k: int|
                0 <= k < texts@.len() ==> fits_entry(#[trigger] texts@[k]@),
            r matches Some(save) ==> save.wifi_counted == wifi_counted && bssid_entries(save.bssid)
                == texts@.map_values(|t: String| t@),
    {
        if texts.len() > BSSID_LEN {
            return None;
        }
        let mut i: usize = 0;
        while i < texts.len()
            invariant
                i <= texts@.len(),
                forall|k: int| 0 <= k < i ==> fits_entry(#[trigger] texts@[k]@),
            decreases texts@.len() - i,
        {
            let t = &texts[i];
            if !(t.is_ascii() && t.as_str().unicode_len() <= BSSID_TEXT_LEN) {
                return None;
            }
            i = i + 1;
        }
        let mut list = BssidList::empty();
        let mut j: usize = 0;
        while j < texts.len()
            invariant
                j <= texts@.len(),
                texts@.len() <= BSSID_LEN,
                forall|k: int| 0 <= k < texts@.len() ==> fits_entry(#[trigger] texts@[k]@),
                bssid_entries(list) == texts@.take(j as int).map_values(|t: String| t@),
            decreases texts@.len() - j,
        {
            let ok = list.append(texts[j].as_str());
            assert(ok);
            assert(texts@.take(j + 1).map_values(|t: String| t@) =~= texts@.take(
                j as int,
            ).map_values(|t: String| t@).push(texts@[j as int]@));
            j = j + 1;
        }
        assert(texts@.take(texts@.len() as int) =~= texts@);
        Some(Save { wifi_counted, bssid: list })
    }

    /// The texts of the listed addresses, in order.
    pub fn bssid_texts(&self) -> (r: Vec<String>)
        ensures
            r@.map_values(|t: String| t@) == bssid_entries(self.bssid),
    {
        let n = self.bssid.count();
        let mut out: Vec<String> = Vec::new();
        let mut i: usize = 0;
        while i < n
            invariant
                n == bssid_entries(self.bssid).len(),
                i <= n,
                out@.map_values(|t: String| t@) == bssid_entries(self.bssid).take(i as int),
            decreases n - i,
        {
            let e = self.bssid.entry(i);
            let ghost before = out@;
            out.push(e);
            assert(out@.map_values(|t: String| t@) =~= before.map_values(|t: String| t@).push(
                e@,
            ));
            assert(bssid_entries(self.bssid).take(i + 1) =~= bssid_entries(self.bssid).take(
                i as int,
            ).push(bssid_entries(self.bssid)[i as int]));
            i = i + 1;
        }
        assert(bssid_entries(self.bssid).take(n as int) =~= bssid_entries(self.bssid));
        out
    }
}

/// Counts a scanned network once. An address not in the list raises the
/// count by one (it stays put at the largest `u32`) and joins the list, or,
/// when the list is full, empties it. An address already listed changes
/// nothing.
pub fn process_bssid(bssid: [u8; 6], wifi_counted: &mut u32, bssids: &mut BssidList)
    ensures
        bssid_entries(*old(bssids)).contains(hex_joined(bssid@, 6)) ==> *final(wifi_counted)
            == *old(wifi_counted) && bssid_entries(*final(bssids)) == bssid_entries(
            *old(bssids),
        ),
        !bssid_entries(*old(bssids)).contains(hex_joined(bssid@, 6)) ==> *final(wifi_counted)
            == if *old(wifi_counted) < u32::MAX {
            (*old(wifi_counted) + 1) as u32
        } else {
            *old(wifi_counted)
        },
        !bssid_entries(*old(bssids)).contains(hex_joined(bssid@, 6)) && bssid_entries(
            *old(bssids),
        ).len() < BSSID_LEN ==> bssid_entries(*final(bssids)) == bssid_entries(*old(bssids)).push(
            hex_joined(bssid@, 6),
        ),
        !bssid_entries(*old(bssids)).contains(hex_joined(bssid@, 6)) && bssid_entries(
            *old(bssids),
        ).len() == BSSID_LEN ==> bssid_entries(*final(bssids)).len() == 0,
{
    let text = format_bssid(bssid);
    proof {
        lemma_hex_joined_shape(bssid@, 6);
    }
    if !bssids.holds(text.as_str()) {
        if *wifi_counted < u32::MAX {
            *wifi_counted = *wifi_counted + 1;
        }
        if !bssids.append(text.as_str()) {
            bssids.empty_out();
        }
    }
}

/// The bytes written to a flash sector for an encoded record: the record,
/// then zeros to the end of the sector. A record longer than a sector is
/// refused.
pub fn sector_image(encoded: &[u8]) -> (r: Result<Vec<u8>, SaveError>)
    ensures
        r.is_err() <==> encoded@.len() > ERASE_SIZE,
        r matches Err(e) ==> e == SaveError::DataTooLarge,
        r matches Ok(buf) ==> {
            &&& buf@.len() == ERASE_SIZE
            &&& buf@.take(encoded@.len() as int) == encoded@
            &&& forall|k: int| encoded@.len() <= k < ERASE_SIZE ==> #[trigger] buf@[k] == 0
        },
{
    if encoded.len() > ERASE_SIZE {
        return Err(SaveError::DataTooLarge);
    }
    let mut buf: Vec<u8> = Vec::new();
    let mut i: usize = 0;
    while i < ERASE_SIZE
        invariant
            i <= ERASE_SIZE,
            encoded@.len() <= ERASE_SIZE,
            buf@.len() == i,
            forall|k: int| 0 <= k < i && k < encoded@.len() ==> #[trigger] buf@[k] == encoded@[k],
            forall|k: int| encoded@.len() <= k < i ==> #[trigger] buf@[k] == 0,
        decreases ERASE_SIZE - i,
    {
        if i < encoded.len() {
            buf.push(encoded[i]);
        } else {
            buf.push(0);
        }
        i = i + 1;
    }
    assert(buf@.take(encoded@.len() as int) =~= encoded@);
    Ok(buf)
}

} // verus!
