//! Cluster lookup: unpacking a cluster's offset-and-counts record and
//! slicing the shared light-index list into its point and spot ranges.

use vstd::prelude::*;

verus! {

/// The slice offset a packed cluster record carries, in its upper bits.
pub open spec fn cluster_offset(packed: u32) -> int {
    (packed >> 16u32) as int
}

/// The point-light count a packed cluster record carries.
pub open spec fn cluster_point_count(packed: u32) -> int {
    ((packed >> 8u32) & 0xffu32) as int
}

/// The spot-light count a packed cluster record carries.
pub open spec fn cluster_spot_count(packed: u32) -> int {
    (packed & 0xffu32) as int
}

/// Unpack a cluster record into its `(offset, point count, spot count)`
/// triple: the offset sits above the two count bytes.
pub fn unpack_offset_and_counts(packed: u32) -> (r: (u32, u32, u32))
    ensures
        r.0 == cluster_offset(packed),
        r.1 == cluster_point_count(packed),
        r.2 == cluster_spot_count(packed),
        r.0 < 0x10000u32,
        r.1 < 0x100u32,
        r.2 < 0x100u32,
        packed == (r.0 << 16u32) | (r.1 << 8u32) | r.2,
{
    let offset: u32 = packed >> 16;
    let point: u32 = (packed >> 8) & 0xff;
    let spot: u32 = packed & 0xff;
    proof {
        assert(packed >> 16u32 < 0x10000u32 && (packed >> 8u32) & 0xffu32 < 0x100u32 && packed
            & 0xffu32 < 0x100u32 && packed == ((packed >> 16u32) << 16u32) | (((packed >> 8u32)
            & 0xffu32) << 8u32) | (packed & 0xffu32)) by (bit_vector);
    }
    (offset, point, spot)
}

/// Fetch one light id from the shared cluster light-index list.
pub fn get_light_id(cluster_light_index_list: &Vec<u32>, i: u32) -> (r: u32)
    requires
        (i as int) < cluster_light_index_list@.len(),
    ensures
        r == cluster_light_index_list@[i as int],
{
    cluster_light_index_list[i as usize]
}

/// The slots a cluster walk visits, in order: `count` consecutive indices
/// starting at `offset`.
pub open spec fn slot_seq(offset: int, count: int) -> Seq<int>
    recommends
        0 <= count,
{
    Seq::new(count as nat, |k: int| offset + k)
}

/// Walking one cluster's slice — point slots first, spot slots after —
/// visits each index of `[offset, offset + point_count + spot_count)`
/// exactly once, and every point slot comes strictly before every spot
/// slot.
pub proof fn lemma_cluster_walk(offset: int, point_count: int, spot_count: int)
    requires
        0 <= offset,
        0 <= point_count,
        0 <= spot_count,
    ensures
        ({
            let walk = slot_seq(offset, point_count) + slot_seq(offset + point_count, spot_count);
            &&& walk.len() == point_count + spot_count
            &&& forall|k: int|
                0 <= k < point_count + spot_count ==> #[trigger] walk[k] == offset + k
            &&& forall|k1: int, k2: int|
                0 <= k1 < k2 < point_count + spot_count ==> walk[k1] != walk[k2]
            &&& forall|i: int| offset <= i < offset + point_count + spot_count ==> walk.contains(i)
            &&& forall|k: int|
                0 <= k < point_count ==> offset <= #[trigger] walk[k] < offset + point_count
            &&& forall|k: int|
                point_count <= k < point_count + spot_count ==> offset + point_count
                    <= #[trigger] walk[k] < offset + point_count + spot_count
        }),
{
    let walk = slot_seq(offset, point_count) + slot_seq(offset + point_count, spot_count);
    assert forall|k: int| 0 <= k < point_count + spot_count implies #[trigger] walk[k] == offset
        + k by {
        if k < point_count {
            assert(walk[k] == slot_seq(offset, point_count)[k]);
        } else {
            assert(walk[k] == slot_seq(offset + point_count, spot_count)[k - point_count]);
        }
    }
    assert forall|i: int| offset <= i < offset + point_count + spot_count implies walk.contains(
        i,
    ) by {
        let k = i - offset;
        assert(walk[k] == i);
    }
}

} // verus!
