//! On-disk metadata records of the APFS container format, and the parsing of an
//! object-map B-tree node.
//!
//! All multi-byte fields are little-endian.
use std::cmp::Ordering;
use std::collections::BTreeMap;
use vstd::bytes::{spec_u16_from_le_bytes, spec_u32_from_le_bytes, spec_u64_from_le_bytes, u16_from_le_bytes, u32_from_le_bytes, u64_from_le_bytes};
use vstd::prelude::*;
use vstd::slice::slice_subrange;

use crate::error::{Errno, KResult};

verus! {

broadcast use vstd::std_specs::btree::group_btree_axioms, vstd::laws_cmp::group_laws_cmp;

/// A 16-byte universally unique identifier.
pub type Uuid = [u8; 16];
/// An object identifier: a block address for a physical object, a number for
/// an ephemeral or virtual one.
pub type Oid = u64;
/// A transaction identifier; they increase monotonically.
pub type Xid = u64;

pub const BLOCK_SIZE: usize = 0x1000;
/// Size of the object header that starts every object.
pub const OBJECT_HDR_SIZE: usize = 32;
pub const MAX_ALLOWED_CHECKPOINT_MAP_SIZE: usize = 100;
/// Bytes of a B-tree node after its header, its four locations and its last word.
pub const BTREE_STORAGE_SIZE: usize = BLOCK_SIZE - OBJECT_HDR_SIZE - 4 * 4 - 8;
/// Size of the B-tree information that ends a root node.
pub const BTREE_INFO_SIZE: usize = 40;
/// Size of an object-map key, and of an object-map value.
pub const OMAP_RECORD_SIZE: usize = 16;

pub const OBJ_ID_MASK: u64 = 0x0fffffffffffffff;
pub const OBJ_TYPE_MASK: u64 = 0xf000000000000000;
pub const OBJ_TYPE_SHIFT: u64 = 60;
pub const SYSTEM_OBJ_ID_MARK: u64 = 0x0fffffff00000000;

pub const J_DREC_LEN_MASK: u32 = 0x000003ff;
pub const J_DREC_HASH_MASK: u32 = 0xfffff400;
pub const J_DREC_HASH_SHIFT: u32 = 10;

/// Object types, in the low 16 bits of an object's type.
pub const OBJECT_TYPE_BTREE: u32 = 0x2;
pub const OBJECT_TYPE_BTREE_NODE: u32 = 0x3;
pub const OBJECT_TYPE_OMAP: u32 = 0xb;
/// Object type flag: the object is physical.
pub const OBJ_PHYSICAL: u32 = 0x40000000;
/// B-tree node flag: the node is the root.
pub const BTNODE_ROOT: u16 = 0x1;

/// The magic of a container superblock, as it reads after `post_process`.
pub open spec fn nx_magic_spec() -> Seq<u8> {
    seq![0x42u8, 0x53u8, 0x58u8, 0x4eu8]
}

/// Defines how a B-tree key behaves.
pub trait BTreeKey: Eq + Ord + PartialEq + PartialOrd + Sized {
}

/// A range of physical addresses.
#[derive(Debug, Clone)]
pub struct Prange {
    pub pr_start_paddr: u64,
    pub pr_block_count: u64,
}

/// The header of every object.
#[derive(Debug, Clone)]
pub struct ObjectPhysical {
    /// The Fletcher-64 checksum of the object.
    pub o_cksum: [u8; 8],
    pub o_oid: Oid,
    pub o_xid: Xid,
    /// Low 16 bits: the type; high 16 bits: flags.
    pub o_type: u32,
    /// The type of data stored in the object, such as the records of a B-tree.
    pub o_subtype: u32,
}

/// The superblock of a container.
#[derive(Clone, Debug)]
pub struct NxSuperBlock {
    pub nx_o: ObjectPhysical,
    pub nx_magic: [u8; 4],
    pub nx_block_size: u32,
    pub nx_block_count: u64,
    pub nx_features: u64,
    pub nx_readonly_compatible_features: u64,
    pub nx_incompatible_features: u64,
    pub uuid: Uuid,
    pub nx_next_oid: Oid,
    pub nx_next_xid: Xid,
    pub nx_xp_desc_blocks: u32,
    pub nx_xp_data_blocks: u32,
    /// The first block of the checkpoint descriptor area when it is
    /// contiguous, else the physical object identifier of a B-tree of its
    /// fragments.
    pub nx_xp_desc_base: u64,
    pub nx_xp_data_base: u64,
    pub nx_xp_desc_next: u32,
    pub nx_xp_data_next: u32,
    pub nx_xp_desc_index: u32,
    pub nx_xp_desc_len: u32,
    pub nx_xp_data_index: u32,
    pub nx_xp_data_len: u32,
    pub nx_spaceman_oid: Oid,
    pub nx_omap_oid: Oid,
    pub nx_reaper_oid: Oid,
    pub nx_test_type: u32,
    pub nx_max_file_systems: u32,
    pub nx_fs_oid: [Oid; 100],
    pub nx_counters: [u64; 32],
    pub nx_blocked_out_prange: Prange,
    pub nx_evict_mapping_tree_oid: u64,
    pub nx_flags: u64,
    pub nx_efi_jumpstart: u64,
    pub nx_fusion_uuid: Uuid,
    pub nx_keylocker: Prange,
    pub nx_ephemeral_info: [u64; 4],
    pub nx_test_oid: Oid,
    pub nx_fusion_mt_oid: Oid,
    pub nx_fusion_wbc_oid: Oid,
    pub nx_fusion_wbc: Prange,
    pub nx_newest_mounted_version: u64,
    pub nx_mkb_locker: Prange,
}

impl NxSuperBlock {
    /// Whether the block is not corrupted: its magic is right.
    pub fn verify(&self) -> (r: bool)
        ensures
            r == (self.nx_magic@ == nx_magic_spec()),
    {
        let ok = self.nx_magic[0] == 0x42 && self.nx_magic[1] == 0x53 && self.nx_magic[2] == 0x58
            && self.nx_magic[3] == 0x4e;
        assert(ok ==> self.nx_magic@ =~= nx_magic_spec());
        ok
    }

    /// Converts what was read from disk to the order the rest expects: the
    /// magic's bytes are reversed.
    pub fn post_process(&mut self)
        ensures
            final(self).nx_magic@ == old(self).nx_magic@.reverse(),
            (NxSuperBlock { nx_magic: old(self).nx_magic, ..*final(self) }) == *old(self),
    {
        let m = self.nx_magic;
        self.nx_magic = [m[3], m[2], m[1], m[0]];
        assert(self.nx_magic@ =~= m@.reverse());
    }
}

/// A key of the object map: the object and the transaction. A lookup wants the
/// record of the object with the largest transaction not after the one asked.
#[derive(Clone, Copy, Debug, PartialEq, Eq, Structural)]
pub struct ObjectMapKey {
    pub ok_oid: Oid,
    pub ok_xid: Xid,
}

/// A value of the object map: where the object is stored.
#[derive(Clone, Copy, Debug, PartialEq, Eq, Structural)]
pub struct ObjectMapValue {
    pub ov_flags: u32,
    pub ov_size: u32,
    pub ov_paddr: u64,
}

/// The object map, by (object identifier, transaction identifier).
pub type ObjectMap = BTreeMap<(Oid, Xid), ObjectMapValue>;

/// A snapshot of an object map; stored under its transaction identifier.
#[derive(Clone)]
pub struct ObjectMapSnapshot {
    pub oms_flags: u32,
    pub oms_pad: u32,
    pub oms_oid: Oid,
}

/// An object map: a B-tree from virtual object and transaction to physical
/// address.
#[derive(Clone)]
pub struct ObjectMapPhysical {
    pub om_o: ObjectPhysical,
    pub om_flags: u32,
    pub om_snap_count: u32,
    pub om_tree_type: u32,
    pub om_snapshot_tree_type: u32,
    pub om_tree_oid: Oid,
    pub om_snapshot_tree_oid: Oid,
    pub om_most_recent_snap: u64,
    pub om_pending_revert_min: u64,
    pub om_pending_revert_max: u64,
}

/// The header that starts every file-system key: the object identifier in the
/// low 60 bits, the record type in the high 4.
pub struct JKey {
    pub obj_id_and_type: u64,
}

/// The key of an inode record.
pub struct JInodeKey {
    pub hdr: JKey,
}

/// The key of a directory entry record.
pub struct JDrecKey {
    pub hdr: JKey,
    pub name_len: u16,
    pub name: Vec<u8>,
}

/// The key of a directory entry record with a hashed name.
pub struct JDrecHashedKey {
    pub hdr: JKey,
    pub name_len_and_hash: u16,
    pub name: Vec<u8>,
}

/// The value of a directory entry record.
pub struct JDrecVal {
    pub file_id: u64,
    pub date_added: u64,
    pub flags: u16,
    pub xfields: Vec<u8>,
}

/// The value of an inode record.
pub struct JInodeVal {
    pub parent_id: u64,
    pub private_id: u64,
    pub create_time: u64,
    pub mod_time: u64,
    pub change_time: u64,
    pub access_time: u64,
    pub internal_flags: u64,
    pub nchildren: i32,
    pub nlink: i32,
    pub write_generation_counter: u32,
    pub bsd_flags: u32,
    pub owner: u32,
    pub group: u32,
    pub mode: u16,
    pub pad1: u16,
    pub uncompressed_size: u64,
    pub xfields: Vec<u8>,
}

/// One mapping of a checkpoint: an ephemeral object and where it is.
#[derive(Clone)]
pub struct CheckpointMap {
    pub cpm_type: u32,
    pub cpm_subtype: u32,
    pub cpm_size: u32,
    pub cpm_pad: u32,
    pub cpm_fs_oid: Oid,
    pub cpm_oid: Oid,
    pub cpm_paddr: u64,
}

/// A checkpoint-mapping block. The last block of a checkpoint carries the
/// last-map flag.
#[derive(Clone)]
pub struct CheckpointMapPhysical {
    pub cpm_o: ObjectPhysical,
    pub cpm_flags: u32,
    pub cpm_count: u32,
    pub cpm_map: [CheckpointMap; 100],
}

#[derive(Debug, Clone)]
pub struct WrappedMetaCryptoState {
    pub major_version: u16,
    pub minor_version: u16,
    pub cpflags: u32,
    pub persistent_class: u32,
    pub key_os_version: u32,
    pub pad: u16,
}

/// Who formatted or modified a volume, and when.
#[derive(Debug, Clone)]
pub struct ApfsModfiedBy {
    pub id: [u8; 32],
    pub timestamp: u64,
    pub last_xid: Xid,
}

/// The superblock of a volume.
#[derive(Debug, Clone)]
pub struct ApfsSuperblock {
    pub apfs_o: ObjectPhysical,
    pub apfs_magic: [u8; 4],
    pub apfs_fs_indx: u32,
    pub apfs_features: u64,
    pub apfs_readonly_compatible_features: u64,
    pub apfs_incompatible_features: u64,
    pub apfs_unmount_time: u64,
    pub apfs_fs_reserve_block_count: u64,
    pub apfs_fs_quota_block_count: u64,
    pub apfs_fs_alloc_count: u64,
    pub apfs_meta_crypto: WrappedMetaCryptoState,
    pub apfs_root_tree_type: u32,
    pub apfs_extentref_tree_type: u32,
    pub apfs_snap_meta_tree_type: u32,
    pub apfs_omap_oid: Oid,
    pub apfs_root_tree_oid: Oid,
    pub apfs_extentref_tree_oid: Oid,
    pub apfs_snap_meta_tree_oid: Oid,
    pub apfs_revert_to_xid: Xid,
    pub apfs_revert_to_sblock_oid: Oid,
    pub apfs_next_obj_id: u64,
    pub apfs_num_files: u64,
    pub apfs_num_directories: u64,
    pub apfs_num_symlinks: u64,
    pub apfs_num_other_fsobjects: u64,
    pub apfs_num_snapshots: u64,
    pub apfs_total_blocks_alloced: u64,
    pub apfs_total_blocks_freed: u64,
    pub apfs_vol_uuid: Uuid,
    pub apfs_last_mod_time: u64,
    pub apfs_fs_flags: u64,
    pub apfs_formatted_by: ApfsModfiedBy,
    pub apfs_modified_by: [ApfsModfiedBy; 8],
    pub apfs_volname: [u8; 256],
    pub apfs_next_doc_id: u32,
    pub apfs_role: u16,
    pub pad: u16,
    pub apfs_root_to_xid: Xid,
    pub apfs_er_state_oid: Oid,
    pub apfs_cloneinfo_id_epoch: u64,
    pub apfs_cloneinfo_xid: u64,
    pub apfs_snap_meta_ext_oid: Oid,
    pub apfs_volume_group_id: Uuid,
    pub apfs_integrity_meta_oid: Oid,
    pub apfs_fext_tree_oid: Oid,
    pub apfs_fext_tree_type: u32,
    pub reserved_type: u32,
    pub reserved_oid: Oid,
}

/// A location within a B-tree node.
#[derive(Clone, Copy, Debug, PartialEq, Eq, Structural)]
pub struct Nloc {
    pub off: u16,
    pub len: u16,
}

/// A B-tree node: header, table of contents location, free lists, and the
/// storage that holds the table of contents, the keys, and (from the end) the
/// values.
#[derive(Clone, Debug)]
pub struct BTreeNodePhysical {
    pub btn_o: ObjectPhysical,
    pub btn_flags: u16,
    pub btn_level: u16,
    pub btn_nkeys: u32,
    /// Where the table of contents lies, counted from the start of the storage.
    pub btn_table_space: Nloc,
    pub btn_free_space: Nloc,
    pub btn_key_free_list: Nloc,
    pub btn_val_free_list: Nloc,
    pub btn_data: [u8; BTREE_STORAGE_SIZE],
}

/// Static information about a B-tree.
#[derive(Clone, Debug)]
pub struct BTreeInfoFixed {
    pub bt_flags: u32,
    pub bt_node_size: u32,
    pub bt_key_size: u32,
    pub bt_val_size: u32,
}

/// Information about a B-tree.
#[derive(Clone, Debug)]
pub struct BTreeInfo {
    pub bt_fixed: BTreeInfoFixed,
    pub bt_longest_key: u32,
    pub bt_longest_val: u32,
    pub bt_key_count: u64,
    pub bt_node_count: u64,
}

/// A table-of-contents entry for fixed-size keys and values: the key's offset
/// from the start of the key area, the value's offset back from the end of
/// the value area.
#[derive(Clone, Copy, Debug, PartialEq, Eq, Structural)]
pub struct KvOff {
    pub k: u16,
    pub v: u16,
}

/// A table-of-contents entry for keys and values of varying size.
#[derive(Clone, Copy, Debug, PartialEq, Eq, Structural)]
pub struct KvLoc {
    pub k: Nloc,
    pub v: Nloc,
}

/// The numeric order of two integers.
pub open spec fn order_of(a: int, b: int) -> Ordering {
    if a < b {
        Ordering::Less
    } else if a > b {
        Ordering::Greater
    } else {
        Ordering::Equal
    }
}

/// The lexicographic order of two byte strings; a proper prefix comes first.
pub open spec fn lex_order(a: Seq<u8>, b: Seq<u8>) -> Ordering
    decreases a.len(),
{
    if a.len() == 0 {
        if b.len() == 0 {
            Ordering::Equal
        } else {
            Ordering::Less
        }
    } else if b.len() == 0 {
        Ordering::Greater
    } else if a[0] != b[0] {
        order_of(a[0] as int, b[0] as int)
    } else {
        lex_order(a.drop_first(), b.drop_first())
    }
}

fn compare_u64(a: u64, b: u64) -> (r: Ordering)
    ensures
        r == order_of(a as int, b as int),
{
    if a < b {
        Ordering::Less
    } else if a > b {
        Ordering::Greater
    } else {
        Ordering::Equal
    }
}

/// Compares two byte strings lexicographically.
pub fn compare_bytes(a: &Vec<u8>, b: &Vec<u8>) -> (r: Ordering)
    ensures
        r == lex_order(a@, b@),
{
    let mut i: usize = 0;
    assert(a@.subrange(0, a.len() as int) =~= a@);
    assert(b@.subrange(0, b.len() as int) =~= b@);
    while i < a.len() && i < b.len() && a[i] == b[i]
        invariant
            i <= a.len(),
            i <= b.len(),
            lex_order(a@, b@) == lex_order(a@.subrange(i as int, a.len() as int), b@.subrange(i as int, b.len() as int)),
        decreases a.len() - i,
    {
        let ghost sa = a@.subrange(i as int, a.len() as int);
        let ghost sb = b@.subrange(i as int, b.len() as int);
        assert(sa.drop_first() =~= a@.subrange(i + 1, a.len() as int));
        assert(sb.drop_first() =~= b@.subrange(i + 1, b.len() as int));
        i = i + 1;
    }
    if i == a.len() {
        if i == b.len() {
            Ordering::Equal
        } else {
            Ordering::Less
        }
    } else if i == b.len() {
        Ordering::Greater
    } else {
        compare_u64(a[i] as u64, b[i] as u64)
    }
}

impl ObjectMapKey {
    /// The order of object-map keys: by object identifier, and for the same
    /// object a key equals every key of the same or a later transaction, so
    /// that a search for a transaction finds the latest record not after it.
    pub open spec fn order_spec(self, other: Self) -> Ordering {
        if self.ok_oid != other.ok_oid {
            order_of(self.ok_oid as int, other.ok_oid as int)
        } else if self.ok_xid > other.ok_xid {
            Ordering::Greater
        } else {
            Ordering::Equal
        }
    }

    /// Compares two keys; see `order_spec`.
    pub fn compare(&self, other: &Self) -> (r: Ordering)
        ensures
            r == self.order_spec(*other),
    {
        if self.ok_oid != other.ok_oid {
            compare_u64(self.ok_oid, other.ok_oid)
        } else if self.ok_xid > other.ok_xid {
            Ordering::Greater
        } else {
            Ordering::Equal
        }
    }
}

impl JKey {
    pub open spec fn obj_id(self) -> u64 {
        self.obj_id_and_type & OBJ_ID_MASK
    }

    pub open spec fn obj_type(self) -> u64 {
        (self.obj_id_and_type & OBJ_TYPE_MASK) >> OBJ_TYPE_SHIFT
    }

    /// The order of file-system keys: by object identifier, then by record type.
    pub open spec fn order_spec(self, other: Self) -> Ordering {
        if self.obj_id() != other.obj_id() {
            order_of(self.obj_id() as int, other.obj_id() as int)
        } else {
            order_of(self.obj_type() as int, other.obj_type() as int)
        }
    }

    /// Compares two keys; see `order_spec`.
    pub fn compare(&self, other: &Self) -> (r: Ordering)
        ensures
            r == self.order_spec(*other),
    {
        let a = self.obj_id_and_type & OBJ_ID_MASK;
        let b = other.obj_id_and_type & OBJ_ID_MASK;
        if a != b {
            return compare_u64(a, b);
        }
        compare_u64(
            (self.obj_id_and_type & OBJ_TYPE_MASK) >> OBJ_TYPE_SHIFT,
            (other.obj_id_and_type & OBJ_TYPE_MASK) >> OBJ_TYPE_SHIFT,
        )
    }
}

impl JInodeKey {
    /// Compares by the header.
    pub fn compare(&self, other: &Self) -> (r: Ordering)
        ensures
            r == self.hdr.order_spec(other.hdr),
    {
        self.hdr.compare(&other.hdr)
    }
}

impl JDrecKey {
    /// The order of directory entry keys: by header, then by name.
    pub open spec fn order_spec(self, other: Self) -> Ordering {
        match self.hdr.order_spec(other.hdr) {
            Ordering::Equal => lex_order(self.name@, other.name@),
            o => o,
        }
    }

    /// Compares two keys; see `order_spec`.
    pub fn compare(&self, other: &Self) -> (r: Ordering)
        ensures
            r == self.order_spec(*other),
    {
        match self.hdr.compare(&other.hdr) {
            Ordering::Equal => compare_bytes(&self.name, &other.name),
            o => o,
        }
    }
}

/// The little-endian 16-bit word at `off`.
pub open spec fn le16_at(d: Seq<u8>, off: int) -> u16 {
    spec_u16_from_le_bytes(d.subrange(off, off + 2))
}

/// The little-endian 32-bit word at `off`.
pub open spec fn le32_at(d: Seq<u8>, off: int) -> u32 {
    spec_u32_from_le_bytes(d.subrange(off, off + 4))
}

/// The little-endian 64-bit word at `off`.
pub open spec fn le64_at(d: Seq<u8>, off: int) -> u64 {
    spec_u64_from_le_bytes(d.subrange(off, off + 8))
}

/// The table-of-contents entry stored at `off`.
pub open spec fn kv_off_at(d: Seq<u8>, off: int) -> KvOff {
    KvOff { k: le16_at(d, off), v: le16_at(d, off + 2) }
}

/// The object-map key stored at `off`.
pub open spec fn omap_key_at(d: Seq<u8>, off: int) -> ObjectMapKey {
    ObjectMapKey { ok_oid: le64_at(d, off), ok_xid: le64_at(d, off + 8) }
}

/// The object-map value stored at `off`.
pub open spec fn omap_value_at(d: Seq<u8>, off: int) -> ObjectMapValue {
    ObjectMapValue { ov_flags: le32_at(d, off), ov_size: le32_at(d, off + 4), ov_paddr: le64_at(d, off + 8) }
}

fn read_le16(d: &[u8], off: usize) -> (r: u16)
    requires
        d@.len() == BTREE_STORAGE_SIZE,
        off + 2 <= d@.len(),
    ensures
        r == le16_at(d@, off as int),
{
    u16_from_le_bytes(slice_subrange(d, off, off + 2))
}

fn read_le32(d: &[u8], off: usize) -> (r: u32)
    requires
        d@.len() == BTREE_STORAGE_SIZE,
        off + 4 <= d@.len(),
    ensures
        r == le32_at(d@, off as int),
{
    u32_from_le_bytes(slice_subrange(d, off, off + 4))
}

fn read_le64(d: &[u8], off: usize) -> (r: u64)
    requires
        d@.len() == BTREE_STORAGE_SIZE,
        off + 8 <= d@.len(),
    ensures
        r == le64_at(d@, off as int),
{
    u64_from_le_bytes(slice_subrange(d, off, off + 8))
}

/// The map that inserting the first `n` keys, each with its value, in order,
/// makes: a later record of the same key replaces an earlier one.
pub open spec fn omap_prefix(keys: Seq<ObjectMapKey>, vals: Seq<ObjectMapValue>, n: nat) -> Map<(Oid, Xid), ObjectMapValue>
    decreases n,
{
    if n == 0 {
        Map::empty()
    } else {
        let k = keys[n - 1];
        omap_prefix(keys, vals, (n - 1) as nat).insert((k.ok_oid, k.ok_xid), vals[n - 1])
    }
}

impl BTreeNodePhysical {
    /// The table of contents lies within the storage.
    pub open spec fn toc_fits(self) -> bool {
        self.btn_table_space.off + 4 * self.btn_nkeys <= BTREE_STORAGE_SIZE
    }

    /// The table of contents: one entry of four bytes for each key, from the
    /// table's offset.
    pub open spec fn toc_spec(self) -> Seq<KvOff> {
        Seq::new(self.btn_nkeys as nat, |i: int| kv_off_at(self.btn_data@, self.btn_table_space.off + 4 * i))
    }

    /// Where the key area starts: right after the table of contents.
    pub open spec fn key_area(self) -> int {
        self.btn_table_space.off + self.btn_table_space.len
    }

    /// The keys lie within the storage.
    pub open spec fn keys_fit(self) -> bool {
        self.key_area() + OMAP_RECORD_SIZE * self.btn_nkeys <= BTREE_STORAGE_SIZE
    }

    /// The keys: fixed-size records one after another from the key area.
    pub open spec fn keys_spec(self) -> Seq<ObjectMapKey> {
        Seq::new(self.btn_nkeys as nat, |i: int| omap_key_at(self.btn_data@, self.key_area() + OMAP_RECORD_SIZE * i))
    }

    /// Bytes at the end of the storage that are not part of the value area: the
    /// B-tree information of a root node.
    pub open spec fn value_end_gap(self) -> int {
        if self.btn_flags & BTNODE_ROOT != 0 {
            BTREE_INFO_SIZE as int
        } else {
            0
        }
    }

    /// A value that lies `v` bytes back from the end of the value area fits in
    /// the storage.
    pub open spec fn value_fits(self, v: u16) -> bool {
        OMAP_RECORD_SIZE <= v && self.value_end_gap() + v <= BTREE_STORAGE_SIZE
    }

    /// Where a value that lies `v` bytes back from the end of the value area
    /// starts.
    pub open spec fn value_start(self, v: u16) -> int {
        BTREE_STORAGE_SIZE - self.value_end_gap() - v
    }

    /// The table of contents and every value it locates lie within the storage.
    pub open spec fn values_fit(self) -> bool {
        &&& self.toc_fits()
        &&& forall|i: int| 0 <= i < self.btn_nkeys ==> self.value_fits(#[trigger] self.toc_spec()[i].v)
    }

    /// The values, in table-of-contents order.
    pub open spec fn values_spec(self) -> Seq<ObjectMapValue> {
        Seq::new(
            self.btn_nkeys as nat,
            |i: int| omap_value_at(self.btn_data@, self.value_start(self.toc_spec()[i].v)),
        )
    }

    /// The node is a physical object.
    pub open spec fn is_physical(self) -> bool {
        self.btn_o.o_type & OBJ_PHYSICAL != 0
    }

    /// The node's type is a B-tree or a B-tree node.
    pub open spec fn is_btree(self) -> bool {
        (self.btn_o.o_type & 0xff) & (OBJECT_TYPE_BTREE_NODE | OBJECT_TYPE_BTREE) != 0
    }

    /// The node's subtype is an object map.
    pub open spec fn is_omap(self) -> bool {
        (self.btn_o.o_subtype & 0xff) & OBJECT_TYPE_OMAP == OBJECT_TYPE_OMAP
    }

    /// The node can be read as the root of an object map.
    pub open spec fn is_omap_node(self) -> bool {
        &&& self.is_physical()
        &&& self.is_btree()
        &&& self.is_omap()
        &&& self.keys_fit()
        &&& self.values_fit()
    }

    /// Reads this node as the root of an object map and builds the map from its
    /// keys and values, in order. Fails with `InvalidArgument` when the node is
    /// not a physical object-map B-tree, or its records do not lie within the
    /// storage.
    pub fn parse_as_object_map(&self) -> (r: KResult<ObjectMap>)
        ensures
            r is Ok <==> self.is_omap_node(),
            match r {
                Ok(m) => m@ == omap_prefix(self.keys_spec(), self.values_spec(), self.btn_nkeys as nat),
                Err(e) => e == Errno::InvalidArgument,
            },
    {
        if self.btn_o.o_type & OBJ_PHYSICAL == 0 {
            return Err(Errno::InvalidArgument);
        }
        if (self.btn_o.o_type & 0xff) & (OBJECT_TYPE_BTREE_NODE | OBJECT_TYPE_BTREE) == 0 {
            return Err(Errno::InvalidArgument);
        }
        if (self.btn_o.o_subtype & 0xff) & OBJECT_TYPE_OMAP != OBJECT_TYPE_OMAP {
            return Err(Errno::InvalidArgument);
        }
        let keys = match self.interpret_as_omap_keys() {
            Ok(keys) => keys,
            Err(e) => return Err(e),
        };
        let values = match self.interpret_as_omap_values() {
            Ok(values) => values,
            Err(e) => return Err(e),
        };
        if keys.len() != values.len() {
            return Err(Errno::InvalidArgument);
        }
        let mut omap: ObjectMap = BTreeMap::new();
        let mut i: usize = 0;
        while i < keys.len()
            invariant
                keys@ == self.keys_spec(),
                values@ == self.values_spec(),
                keys.len() == values.len(),
                i <= keys.len(),
                omap@ == omap_prefix(keys@, values@, i as nat),
            decreases keys.len() - i,
        {
            let k = keys[i];
            omap.insert((k.ok_oid, k.ok_xid), values[i]);
            i = i + 1;
        }
        Ok(omap)
    }

    /// Reads the table of contents. Fails with `InvalidArgument` when it does not
    /// lie within the storage.
    pub fn interpret_as_toc(&self) -> (r: KResult<Vec<KvOff>>)
        ensures
            match r {
                Ok(toc) => self.toc_fits() && toc@ == self.toc_spec(),
                Err(e) => !self.toc_fits() && e == Errno::InvalidArgument,
            },
    {
        let off = self.btn_table_space.off as u64;
        let n = self.btn_nkeys as u64;
        if off + 4 * n > BTREE_STORAGE_SIZE as u64 {
            return Err(Errno::InvalidArgument);
        }
        let d = self.btn_data.as_slice();
        let mut toc: Vec<KvOff> = Vec::new();
        let mut i: usize = 0;
        while i < n as usize
            invariant
                off + 4 * n <= BTREE_STORAGE_SIZE,
                n == self.btn_nkeys,
                off == self.btn_table_space.off,
                d@ == self.btn_data@,
                i <= n,
                toc@ == self.toc_spec().take(i as int),
            decreases n - i,
        {
            let at = off as usize + 4 * i;
            let e = KvOff { k: read_le16(d, at), v: read_le16(d, at + 2) };
            toc.push(e);
            i = i + 1;
            assert(toc@ =~= self.toc_spec().take(i as int));
        }
        assert(toc@ =~= self.toc_spec());
        Ok(toc)
    }

    /// Reads the object-map keys. Fails with `InvalidArgument` when they do not
    /// lie within the storage.
    pub fn interpret_as_omap_keys(&self) -> (r: KResult<Vec<ObjectMapKey>>)
        ensures
            match r {
                Ok(keys) => self.keys_fit() && keys@ == self.keys_spec(),
                Err(e) => !self.keys_fit() && e == Errno::InvalidArgument,
            },
    {
        let start = self.btn_table_space.off as u64 + self.btn_table_space.len as u64;
        let n = self.btn_nkeys as u64;
        if start + 16 * n > BTREE_STORAGE_SIZE as u64 {
            return Err(Errno::InvalidArgument);
        }
        let d = self.btn_data.as_slice();
        let mut keys: Vec<ObjectMapKey> = Vec::new();
        let mut i: usize = 0;
        while i < n as usize
            invariant
                start + 16 * n <= BTREE_STORAGE_SIZE,
                n == self.btn_nkeys,
                start == self.key_area(),
                d@ == self.btn_data@,
                i <= n,
                keys@ == self.keys_spec().take(i as int),
            decreases n - i,
        {
            let at = start as usize + 16 * i;
            let k = ObjectMapKey { ok_oid: read_le64(d, at), ok_xid: read_le64(d, at + 8) };
            keys.push(k);
            i = i + 1;
            assert(keys@ =~= self.keys_spec().take(i as int));
        }
        assert(keys@ =~= self.keys_spec());
        Ok(keys)
    }

    /// Reads the object-map values that the table of contents locates, each `v`
    /// bytes back from the end of the value area (which ends before the B-tree
    /// information in a root node). Fails with `InvalidArgument` when the table
    /// or a value does not lie within the storage.
    pub fn interpret_as_omap_values(&self) -> (r: KResult<Vec<ObjectMapValue>>)
        ensures
            match r {
                Ok(vals) => self.values_fit() && vals@ == self.values_spec(),
                Err(e) => !self.values_fit() && e == Errno::InvalidArgument,
            },
    {
        let toc = match self.interpret_as_toc() {
            Ok(toc) => toc,
            Err(e) => return Err(e),
        };
        let gap: usize = if self.btn_flags & BTNODE_ROOT != 0 { BTREE_INFO_SIZE } else { 0 };
        let d = self.btn_data.as_slice();
        let mut vals: Vec<ObjectMapValue> = Vec::new();
        let mut i: usize = 0;
        while i < toc.len()
            invariant
                self.toc_fits(),
                toc@ == self.toc_spec(),
                toc.len() == self.btn_nkeys,
                gap == self.value_end_gap(),
                d@ == self.btn_data@,
                i <= toc.len(),
                forall|j: int| 0 <= j < i ==> self.value_fits(#[trigger] self.toc_spec()[j].v),
                vals@ == self.values_spec().take(i as int),
            decreases toc.len() - i,
        {
            let v = toc[i].v as usize;
            if v < OMAP_RECORD_SIZE || gap + v > BTREE_STORAGE_SIZE {
                assert(!self.value_fits(self.toc_spec()[i as int].v));
                return Err(Errno::InvalidArgument);
            }
            let at = BTREE_STORAGE_SIZE - gap - v;
            let val = ObjectMapValue { ov_flags: read_le32(d, at), ov_size: read_le32(d, at + 4), ov_paddr: read_le64(d, at + 8) };
            vals.push(val);
            i = i + 1;
            assert(vals@ =~= self.values_spec().take(i as int));
        }
        assert(vals@ =~= self.values_spec());
        Ok(vals)
    }
}

/// A mounted volume: its superblock and its object map.
pub struct ApfsVolumn {
    pub superblock: ApfsSuperblock,
    pub object_map: ObjectMap,
    pub root_tree: (),
}

impl ApfsVolumn {
    /// Builds a volume from its superblock and the root node of its object map
    /// (the node at the superblock's object-map identifier). Fails as
    /// `parse_as_object_map` does.
    pub fn from_raw(apfs_superblock: ApfsSuperblock, omap_root: &BTreeNodePhysical) -> (r: KResult<Self>)
        ensures
            r is Ok <==> omap_root.is_omap_node(),
            match r {
                Ok(v) => v.superblock == apfs_superblock && v.object_map@ == omap_prefix(
                    omap_root.keys_spec(),
                    omap_root.values_spec(),
                    omap_root.btn_nkeys as nat,
                ),
                Err(e) => e == Errno::InvalidArgument,
            },
    {
        match omap_root.parse_as_object_map() {
            Ok(object_map) => Ok(ApfsVolumn { superblock: apfs_superblock, object_map, root_tree: () }),
            Err(e) => Err(e),
        }
    }
}

} // verus!
