//! The bundle builder: the tag vector that a bundle carries and the owner of
//! the outer item that wraps it.
use vstd::prelude::*;
use vstd::string::StringExecFns;
use crate::decimal::{decimal_seq, to_decimal};
use crate::schedule::ScheduleState;
use crate::tags::{ItemKind, Tag};

verus! {

/// Builds bundles for the scheduler unit that owns `public_key`.
pub struct Builder {
    public_key: Vec<u8>,
}

/// A built bundle: the signed outer item's wire bytes and the serialised
/// bundle that it carries.
pub struct BuildResult {
    pub binary: Vec<u8>,
    pub bundle: Vec<u8>,
}

/// The outer item that carries a bundle, before it is signed.
pub struct OuterItem {
    pub target: Vec<u8>,
    pub data: Vec<u8>,
    pub tags: Vec<Tag>,
    pub owner: Vec<u8>,
}

/// Why a bundle could not be built.
#[derive(Debug)]
pub enum BuilderErrorType {
    BuilderError(String),
}

/// A tag as a pair of character sequences.
pub open spec fn pair(name: Seq<char>, value: Seq<char>) -> (Seq<char>, Seq<char>) {
    (name, value)
}

/// The tags of `tags` as name/value pairs, in order.
pub open spec fn tag_pairs(tags: Seq<Tag>) -> Seq<(Seq<char>, Seq<char>)> {
    tags.map_values(|t: Tag| (t.name@, t.value@))
}

/// The tags of a bundle for an item of kind `kind` scheduled at `snapshot`
/// with block height `height`: a creation carries format, version, height
/// and timestamp; a message also carries its process, epoch, nonce and hash
/// chain.
pub open spec fn bundle_tags_spec(kind: ItemKind, snapshot: crate::schedule::ScheduleView, height: Seq<char>) -> Seq<(Seq<char>, Seq<char>)> {
    let format = pair(seq!['B','u','n','d','l','e','-','F','o','r','m','a','t'], seq!['b','i','n','a','r','y']);
    let version = pair(seq!['B','u','n','d','l','e','-','V','e','r','s','i','o','n'], seq!['2','.','0','.','0']);
    let block = pair(seq!['B','l','o','c','k','-','H','e','i','g','h','t'], height);
    let time = pair(seq!['T','i','m','e','s','t','a','m','p'], decimal_seq(snapshot.timestamp));
    match kind {
        ItemKind::Process => seq![format, version, block, time],
        ItemKind::Message => seq![
            format,
            version,
            pair(seq!['P','r','o','c','e','s','s'], snapshot.process_id),
            pair(seq!['E','p','o','c','h'], snapshot.epoch),
            pair(seq!['N','o','n','c','e'], decimal_seq(snapshot.nonce)),
            pair(seq!['H','a','s','h','-','C','h','a','i','n'], snapshot.hash_chain),
            block,
            time,
        ],
    }
}

fn owned_tag(name: &str, value: String) -> (r: Tag)
    ensures
        r.name@ == name@,
        r.value@ == value@,
{
    Tag { name: String::from_str(name), value }
}

impl Builder {
    pub closed spec fn public_key_view(&self) -> Seq<u8> {
        self.public_key@
    }

    /// A builder that signs as the owner of `public_key`.
    pub fn new(public_key: Vec<u8>) -> (r: Result<Builder, BuilderErrorType>)
        ensures
            r matches Ok(b) && b.public_key_view() == public_key@,
    {
        Ok(Builder { public_key })
    }

    /// The owner of the outer items this builder produces.
    pub fn public_key(&self) -> (r: &Vec<u8>)
        ensures
            r@ == self.public_key_view(),
    {
        &self.public_key
    }

    /// The tag vector of the bundle for an item of kind `kind` scheduled at
    /// `snapshot`, with the gateway's block height `height`.
    pub fn bundle_tags(&self, kind: ItemKind, snapshot: &ScheduleState, height: &String) -> (r: Vec<Tag>)
        ensures
            tag_pairs(r@) == bundle_tags_spec(kind, snapshot@, height@),
    {
        proof {
            reveal_strlit("Bundle-Format");
            reveal_strlit("binary");
            reveal_strlit("Bundle-Version");
            reveal_strlit("2.0.0");
            reveal_strlit("Process");
            reveal_strlit("Epoch");
            reveal_strlit("Nonce");
            reveal_strlit("Hash-Chain");
            reveal_strlit("Block-Height");
            reveal_strlit("Timestamp");
            assert("Bundle-Format"@ =~= seq!['B','u','n','d','l','e','-','F','o','r','m','a','t']);
            assert("binary"@ =~= seq!['b','i','n','a','r','y']);
            assert("Bundle-Version"@ =~= seq!['B','u','n','d','l','e','-','V','e','r','s','i','o','n']);
            assert("2.0.0"@ =~= seq!['2','.','0','.','0']);
            assert("Process"@ =~= seq!['P','r','o','c','e','s','s']);
            assert("Epoch"@ =~= seq!['E','p','o','c','h']);
            assert("Nonce"@ =~= seq!['N','o','n','c','e']);
            assert("Hash-Chain"@ =~= seq!['H','a','s','h','-','C','h','a','i','n']);
            assert("Block-Height"@ =~= seq!['B','l','o','c','k','-','H','e','i','g','h','t']);
            assert("Timestamp"@ =~= seq!['T','i','m','e','s','t','a','m','p']);
        }
        let mut tags: Vec<Tag> = Vec::new();
        tags.push(owned_tag("Bundle-Format", String::from_str("binary")));
        tags.push(owned_tag("Bundle-Version", String::from_str("2.0.0")));
        match kind {
            ItemKind::Process => {},
            ItemKind::Message => {
                tags.push(owned_tag("Process", snapshot.process_id.clone()));
                tags.push(owned_tag("Epoch", snapshot.epoch.clone()));
                tags.push(owned_tag("Nonce", to_decimal(snapshot.nonce)));
                tags.push(owned_tag("Hash-Chain", snapshot.hash_chain.clone()));
            },
        }
        tags.push(owned_tag("Block-Height", height.clone()));
        tags.push(owned_tag("Timestamp", to_decimal(snapshot.timestamp)));
        assert(tag_pairs(tags@) =~= bundle_tags_spec(kind, snapshot@, height@));
        tags
    }

    /// The unsigned outer item for the serialised bundle `bundle` tagged
    /// `tags`: no target, the bundle as data, the same tags, and this
    /// builder's key as owner.
    pub fn outer_item(&self, tags: Vec<Tag>, bundle: Vec<u8>) -> (r: OuterItem)
        ensures
            r.target@.len() == 0,
            r.data@ == bundle@,
            tag_pairs(r.tags@) == tag_pairs(tags@),
            r.owner@ == self.public_key_view(),
    {
        OuterItem { target: Vec::new(), data: bundle, tags, owner: self.public_key.clone() }
    }
}

} // verus!
