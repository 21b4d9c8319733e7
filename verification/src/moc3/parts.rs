//! The part hierarchy and its keyed opacity and draw order.

use vstd::prelude::*;

use super::layout::{checked_range, opt_index, optional_index, optional_unbounded_index, range_ok, read_f32, read_i32, read_ok, Counts};
use super::reader::{table_i32, table_u32, Reader};
use super::types::{Endianness, Part, PartKeyform, PartModel};
use crate::error::Error;

verus! {

/// The sections that parts are read from, already read.
pub struct PartTables {
    pub band_indices: Seq<i32>,
    pub keyform_begins: Seq<i32>,
    pub keyform_counts: Seq<i32>,
    pub parents: Seq<i32>,
    pub draw_orders: Seq<u32>,
    pub opacities: Seq<u32>,
}

/// The part sections of a file with `count` parts.
pub open spec fn part_tables(b: Seq<u8>, e: Endianness, offs: Seq<usize>, count: nat, c: Counts) -> PartTables {
    PartTables {
        band_indices: table_i32(b, e, offs[4] as int, count),
        keyform_begins: table_i32(b, e, offs[5] as int, count),
        keyform_counts: table_i32(b, e, offs[6] as int, count),
        parents: table_i32(b, e, offs[9] as int, count),
        draw_orders: table_u32(b, e, offs[58] as int, c.part_keyforms as nat),
        opacities: table_u32(b, e, offs[59] as int, c.part_keyforms as nat),
    }
}

/// Whether every part section can be read.
pub open spec fn part_sections_ok(len: nat, offs: Seq<usize>, count: nat, c: Counts) -> bool {
    &&& read_ok(len, offs, 4, count, 4)
    &&& read_ok(len, offs, 5, count, 4)
    &&& read_ok(len, offs, 6, count, 4)
    &&& read_ok(len, offs, 9, count, 4)
    &&& read_ok(len, offs, 58, c.part_keyforms as nat, 4)
    &&& read_ok(len, offs, 59, c.part_keyforms as nat, 4)
}

/// Whether part `i` has an in-bounds keyform range and parent.
pub open spec fn part_ok(t: PartTables, count: nat, c: Counts, i: int) -> bool {
    range_ok(t.keyform_begins[i], t.keyform_counts[i], c.part_keyforms as nat) && (t.parents[i] < 0
        || t.parents[i] < count)
}

/// Part `i` with identifier `id`.
pub open spec fn part_of(t: PartTables, id: Seq<char>, i: int) -> PartModel {
    PartModel {
        id,
        parent_part_index: opt_index(t.parents[i]),
        binding_band_index: opt_index(t.band_indices[i]),
        keyforms: Seq::new(
            t.keyform_counts[i] as nat,
            |k: int|
                PartKeyform {
                    opacity: t.opacities[t.keyform_begins[i] + k],
                    draw_order: t.draw_orders[t.keyform_begins[i] + k],
                },
        ),
    }
}

/// Reads the parts and their keyforms.
pub fn parse_parts(reader: &Reader, offsets: &Vec<usize>, ids: &Vec<String>, counts: &Counts) -> (res: Result<Vec<Part>, Error>)
    requires
        offsets@.len() == 160,
    ensures
        ({
            let t = part_tables(reader.bytes(), reader.order(), offsets@, ids@.len(), *counts);
            &&& res is Ok <==> part_sections_ok(reader.bytes().len(), offsets@, ids@.len(), *counts) && forall|i: int|
                0 <= i < ids@.len() ==> #[trigger] part_ok(t, ids@.len(), *counts, i)
            &&& res matches Ok(v) ==> v@.len() == ids@.len() && forall|i: int|
                0 <= i < ids@.len() ==> (#[trigger] v@[i])@ == part_of(t, ids@[i]@, i)
        }),
        res matches Err(e) ==> e is InvalidMoc3,
{
    let count = ids.len();
    let ghost t = part_tables(reader.bytes(), reader.order(), offsets@, count as nat, *counts);
    let band_indices = read_i32(reader, offsets, 4, count)?;
    let keyform_begins = read_i32(reader, offsets, 5, count)?;
    let keyform_counts = read_i32(reader, offsets, 6, count)?;
    let parents = read_i32(reader, offsets, 9, count)?;
    let draw_orders = read_f32(reader, offsets, 58, counts.part_keyforms)?;
    let opacities = read_f32(reader, offsets, 59, counts.part_keyforms)?;

    let mut parts: Vec<Part> = Vec::new();
    let mut index: usize = 0;
    while index < count
        invariant
            index <= count,
            count == ids@.len(),
            t == part_tables(reader.bytes(), reader.order(), offsets@, count as nat, *counts),
            band_indices@ == t.band_indices,
            keyform_begins@ == t.keyform_begins,
            keyform_counts@ == t.keyform_counts,
            parents@ == t.parents,
            draw_orders@ == t.draw_orders,
            opacities@ == t.opacities,
            parts@.len() == index,
            forall|i: int| 0 <= i < index ==> #[trigger] part_ok(t, count as nat, *counts, i),
            forall|i: int| 0 <= i < index ==> (#[trigger] parts@[i])@ == part_of(t, ids@[i]@, i),
        decreases count - index,
    {
        let (start, end) = match checked_range(keyform_begins[index], keyform_counts[index], counts.part_keyforms) {
            Ok(range) => range,
            Err(error) => {
                assert(!part_ok(t, count as nat, *counts, index as int));
                return Err(error);
            },
        };
        let mut keyforms: Vec<PartKeyform> = Vec::new();
        let mut k = start;
        while k < end
            invariant
                start <= k <= end <= counts.part_keyforms,
                opacities@.len() == counts.part_keyforms,
                draw_orders@.len() == counts.part_keyforms,
                keyforms@ =~= Seq::new(
                    (k - start) as nat,
                    |j: int| PartKeyform { opacity: opacities@[start + j], draw_order: draw_orders@[start + j] },
                ),
            decreases end - k,
        {
            keyforms.push(PartKeyform { opacity: opacities[k], draw_order: draw_orders[k] });
            k = k + 1;
        }
        let parent = match optional_index(parents[index], count) {
            Ok(value) => value,
            Err(error) => {
                assert(!part_ok(t, count as nat, *counts, index as int));
                return Err(error);
            },
        };
        let part = Part::new(ids[index].clone(), parent, optional_unbounded_index(band_indices[index]), keyforms);
        assert(part@.keyforms =~= part_of(t, ids@[index as int]@, index as int).keyforms);
        parts.push(part);
        index = index + 1;
    }
    Ok(parts)
}

} // verus!
