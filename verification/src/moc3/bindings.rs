//! Parameter bindings: which parameter owns each binding, the keys on each
//! binding axis, and the bands of axes that keyform grids use.

use vstd::prelude::*;

use super::layout::{checked_range, range_ok, read_f32, read_i32, read_ok, Counts};
use super::reader::{table_i32, table_u32, Reader};
use super::types::{binding_views, BindingBand, ParameterBinding, ParameterBindingModel};
use crate::error::{invalid_moc3, Error};

verus! {

/// Where the binding range that starts at `begin` ends: the first later
/// non-negative begin greater than `begin`, searching from `q`, else `count`.
pub open spec fn range_end(begins: Seq<i32>, begin: int, q: int, count: int) -> int
    decreases begins.len() - q,
{
    if q >= begins.len() || q < 0 {
        count
    } else if begins[q] >= 0 && begins[q] > begin {
        begins[q] as int
    } else {
        range_end(begins, begin, q + 1, count)
    }
}

/// The end of the binding range of parameter `p`.
pub open spec fn param_end(begins: Seq<i32>, p: int, count: int) -> int {
    range_end(begins, begins[p] as int, p + 1, count)
}

/// Whether parameter `p`'s binding range holds binding `j`.
pub open spec fn param_owns(begins: Seq<i32>, p: int, count: int, j: int) -> bool {
    begins[p] >= 0 && begins[p] <= j < param_end(begins, p, count)
}

/// The first parameter below `p` whose binding range holds binding `j`.
pub open spec fn owner_upto(begins: Seq<i32>, count: int, j: int, p: int) -> Option<int>
    decreases p,
{
    if p <= 0 {
        None
    } else {
        match owner_upto(begins, count, j, p - 1) {
            Some(q) => Some(q),
            None => if param_owns(begins, p - 1, count, j) {
                Some(p - 1)
            } else {
                None
            },
        }
    }
}

/// The owner found below `p` is below `p`.
pub proof fn lemma_owner_below(begins: Seq<i32>, count: int, j: int, p: int)
    ensures
        owner_upto(begins, count, j, p) matches Some(q) ==> 0 <= q < p,
    decreases p,
{
    if p > 0 {
        lemma_owner_below(begins, count, j, p - 1);
    }
}

/// Every binding of a band is owned by a parameter of the table.
pub proof fn lemma_band_parameters(tables: BindingTables, count: int, t: int)
    requires
        owners_ok(tables.parameter_begins, count),
        band_ok(tables, count, t),
    ensures
        forall|u: int|
            0 <= u < band_of(tables, count, t).len() ==> (#[trigger] band_of(tables, count, t)[u]).parameter_index
                < tables.parameter_begins.len(),
{
    let begins = tables.parameter_begins;
    assert forall|u: int| 0 <= u < band_of(tables, count, t).len() implies (#[trigger] band_of(
        tables,
        count,
        t,
    )[u]).parameter_index < begins.len() by {
        let k = tables.band_binding_indices[tables.band_begins[t] + u] as int;
        assert(0 <= k < count);
        assert(owner_upto(begins, count, k, begins.len() as int) is Some);
        lemma_owner_below(begins, count, k, begins.len() as int);
    }
}

/// Whether every present parameter's binding range lies inside the table.
pub open spec fn ranges_fit(begins: Seq<i32>, count: int) -> bool {
    forall|p: int|
        #![trigger begins[p]]
        0 <= p < begins.len() && begins[p] >= 0 ==> begins[p] <= count && param_end(begins, p, count) <= count
}

/// Whether every binding has an owning parameter and every range fits.
pub open spec fn owners_ok(begins: Seq<i32>, count: int) -> bool {
    ranges_fit(begins, count) && forall|j: int|
        0 <= j < count ==> (#[trigger] owner_upto(begins, count, j, begins.len() as int)) is Some
}

/// The owning parameter of each binding.
pub open spec fn owners_of(begins: Seq<i32>, count: int) -> Seq<usize> {
    Seq::new(count as nat, |j: int| owner_upto(begins, count, j, begins.len() as int)->0 as usize)
}

proof fn lemma_not_fit(begins: Seq<i32>, count: int, p: int)
    requires
        0 <= p < begins.len(),
        begins[p] >= 0,
        !(begins[p] <= count && param_end(begins, p, count) <= count),
    ensures
        !ranges_fit(begins, count),
{
    if ranges_fit(begins, count) {
        assert(begins[p] <= count && param_end(begins, p, count) <= count);
    }
}

proof fn lemma_range_end_bound(begins: Seq<i32>, begin: int, q: int, count: int)
    ensures
        range_end(begins, begin, q, count) > begin || range_end(begins, begin, q, count) == count,
    decreases begins.len() - q,
{
    if q >= 0 && q < begins.len() && !(begins[q] >= 0 && begins[q] > begin) {
        lemma_range_end_bound(begins, begin, q + 1, count);
    }
}

proof fn lemma_range_end_skip(begins: Seq<i32>, begin: int, q: int, count: int)
    requires
        0 <= q < begins.len(),
        !(begins[q] >= 0 && begins[q] > begin),
    ensures
        range_end(begins, begin, q, count) == range_end(begins, begin, q + 1, count),
{
}

/// Finds the end of the binding range of parameter `p`.
fn find_range_end(begins: &Vec<i32>, p: usize, begin: usize, binding_count: usize) -> (res: usize)
    requires
        p < begins@.len(),
        begins@[p as int] == begin,
    ensures
        res == param_end(begins@, p as int, binding_count as int),
{
    let n = begins.len();
    let mut q = p + 1;
    while q < n
        invariant
            p < q <= begins@.len(),
            n == begins@.len(),
            begins@[p as int] == begin,
            range_end(begins@, begin as int, q as int, binding_count as int) == param_end(
                begins@,
                p as int,
                binding_count as int,
            ),
        decreases begins@.len() - q,
    {
        let value = begins[q];
        if value >= 0 && (value as usize) > begin {
            return value as usize;
        }
        proof {
            lemma_range_end_skip(begins@, begin as int, q as int, binding_count as int);
        }
        q = q + 1;
    }
    binding_count
}

/// Assigns each binding slot the first parameter whose range holds it.
fn expand_binding_parameters(begins: &Vec<i32>, binding_count: usize) -> (res: Result<Vec<usize>, Error>)
    ensures
        res is Ok <==> owners_ok(begins@, binding_count as int),
        res matches Ok(v) ==> v@ == owners_of(begins@, binding_count as int),
        res matches Err(e) ==> e is InvalidMoc3,
{
    let ghost count = binding_count as int;
    let mut result: Vec<Option<usize>> = Vec::new();
    while result.len() < binding_count
        invariant
            result@.len() <= binding_count,
            forall|j: int| 0 <= j < result@.len() ==> result@[j] is None,
        decreases binding_count - result@.len(),
    {
        result.push(None);
    }
    let mut p: usize = 0;
    while p < begins.len()
        invariant
            p <= begins@.len(),
            count == binding_count,
            result@.len() == binding_count,
            forall|j: int|
                0 <= j < count ==> (#[trigger] result@[j]) == match owner_upto(begins@, count, j, p as int) {
                    Some(q) => Some(q as usize),
                    None => None::<usize>,
                },
            forall|q: int|
                #![trigger begins@[q]]
                0 <= q < p && begins@[q] >= 0 ==> begins@[q] <= count && param_end(begins@, q, count) <= count,
        decreases begins@.len() - p,
    {
        let raw = begins[p];
        if raw >= 0 {
            let begin = raw as usize;
            let end = find_range_end(begins, p, begin, binding_count);
            assert(param_end(begins@, p as int, count) == end);
            proof {
                lemma_range_end_bound(begins@, begin as int, p + 1, count);
            }
            if begin > end || end > binding_count {
                proof {
                    lemma_not_fit(begins@, count, p as int);
                }
                return Err(invalid_moc3("parameter binding range is invalid"));
            }
            let mut j = begin;
            while j < end
                invariant
                    begin <= j <= end <= binding_count,
                    count == binding_count,
                    begins@[p as int] == begin,
                    p < begins@.len(),
                    end == param_end(begins@, p as int, count),
                    forall|q: int|
                        #![trigger begins@[q]]
                        0 <= q < p && begins@[q] >= 0 ==> begins@[q] <= count && param_end(begins@, q, count) <= count,
                    result@.len() == binding_count,
                    forall|k: int|
                        0 <= k < count ==> (#[trigger] result@[k]) == if begin <= k < j {
                            match owner_upto(begins@, count, k, p + 1) {
                                Some(q) => Some(q as usize),
                                None => None::<usize>,
                            }
                        } else {
                            match owner_upto(begins@, count, k, p as int) {
                                Some(q) => Some(q as usize),
                                None => None::<usize>,
                            }
                        },
                decreases end - j,
            {
                if result[j].is_none() {
                    result.set(j, Some(p));
                }
                j = j + 1;
            }
            assert(begins@[p as int] <= count && param_end(begins@, p as int, count) <= count);
            assert forall|k: int| 0 <= k < count implies (#[trigger] result@[k]) == match owner_upto(
                begins@,
                count,
                k,
                p + 1,
            ) {
                Some(q) => Some(q as usize),
                None => None::<usize>,
            } by {
                if !(begin <= k < end) {
                    assert(!param_owns(begins@, p as int, count, k));
                }
            }
        } else {
            assert forall|k: int| 0 <= k < count implies (#[trigger] result@[k]) == match owner_upto(
                begins@,
                count,
                k,
                p + 1,
            ) {
                Some(q) => Some(q as usize),
                None => None::<usize>,
            } by {
                assert(!param_owns(begins@, p as int, count, k));
            }
        }
        p = p + 1;
    }
    assert(ranges_fit(begins@, count));
    let mut owners: Vec<usize> = Vec::new();
    let mut j: usize = 0;
    while j < binding_count
        invariant
            j <= binding_count,
            count == binding_count,
            result@.len() == binding_count,
            ranges_fit(begins@, count),
            forall|k: int|
                0 <= k < count ==> (#[trigger] result@[k]) == match owner_upto(begins@, count, k, begins@.len() as int) {
                    Some(q) => Some(q as usize),
                    None => None::<usize>,
                },
            forall|k: int| 0 <= k < j ==> (#[trigger] owner_upto(begins@, count, k, begins@.len() as int)) is Some,
            owners@ =~= owners_of(begins@, count).take(j as int),
        decreases binding_count - j,
    {
        match result[j] {
            Some(owner) => owners.push(owner),
            None => {
                assert(owner_upto(begins@, count, j as int, begins@.len() as int) is None);
                return Err(invalid_moc3("parameter binding has no owner"));
            },
        }
        j = j + 1;
    }
    assert(owners@ =~= owners_of(begins@, count));
    Ok(owners)
}

/// The sections that the binding tables are read from, already read.
pub struct BindingTables {
    pub parameter_begins: Seq<i32>,
    pub band_binding_indices: Seq<i32>,
    pub band_begins: Seq<i32>,
    pub band_counts: Seq<i32>,
    pub key_begins: Seq<i32>,
    pub key_counts: Seq<i32>,
    pub key_values: Seq<u32>,
}

/// The binding tables of a file.
pub open spec fn binding_tables(b: Seq<u8>, e: super::types::Endianness, offs: Seq<usize>, c: Counts) -> BindingTables {
    BindingTables {
        parameter_begins: table_i32(b, e, offs[56] as int, c.parameters as nat),
        band_binding_indices: table_i32(b, e, offs[72] as int, c.parameter_binding_indices as nat),
        band_begins: table_i32(b, e, offs[73] as int, c.keyform_bindings as nat),
        band_counts: table_i32(b, e, offs[74] as int, c.keyform_bindings as nat),
        key_begins: table_i32(b, e, offs[75] as int, c.parameter_bindings as nat),
        key_counts: table_i32(b, e, offs[76] as int, c.parameter_bindings as nat),
        key_values: table_u32(b, e, offs[77] as int, c.keys as nat),
    }
}

/// Whether every binding section can be read.
pub open spec fn binding_sections_ok(len: nat, offs: Seq<usize>, c: Counts) -> bool {
    &&& read_ok(len, offs, 56, c.parameters as nat, 4)
    &&& read_ok(len, offs, 72, c.parameter_binding_indices as nat, 4)
    &&& read_ok(len, offs, 73, c.keyform_bindings as nat, 4)
    &&& read_ok(len, offs, 74, c.keyform_bindings as nat, 4)
    &&& read_ok(len, offs, 75, c.parameter_bindings as nat, 4)
    &&& read_ok(len, offs, 76, c.parameter_bindings as nat, 4)
    &&& read_ok(len, offs, 77, c.keys as nat, 4)
}

/// Parameter binding `k`: its owning parameter and its keys.
pub open spec fn binding_of(t: BindingTables, count: int, k: int) -> ParameterBindingModel {
    ParameterBindingModel {
        parameter_index: owners_of(t.parameter_begins, count)[k],
        keys: t.key_values.subrange(t.key_begins[k] as int, t.key_begins[k] + t.key_counts[k]),
    }
}

/// Whether binding band `t` lies inside the index table and names only existing bindings.
pub open spec fn band_ok(tables: BindingTables, count: int, t: int) -> bool {
    &&& range_ok(tables.band_begins[t], tables.band_counts[t], tables.band_binding_indices.len())
    &&& forall|u: int|
        tables.band_begins[t] <= u < tables.band_begins[t] + tables.band_counts[t] ==> 0
            <= #[trigger] tables.band_binding_indices[u] < count
}

/// Binding band `t`: the bindings that its index range names.
pub open spec fn band_of(tables: BindingTables, count: int, t: int) -> Seq<ParameterBindingModel> {
    Seq::new(
        tables.band_counts[t] as nat,
        |u: int| binding_of(tables, count, tables.band_binding_indices[tables.band_begins[t] + u] as int),
    )
}

/// Whether the binding tables are consistent.
pub open spec fn bindings_ok(tables: BindingTables, c: Counts) -> bool {
    &&& owners_ok(tables.parameter_begins, c.parameter_bindings as int)
    &&& forall|k: int|
        0 <= k < c.parameter_bindings ==> range_ok(
            #[trigger] tables.key_begins[k],
            tables.key_counts[k],
            tables.key_values.len(),
        )
    &&& forall|t: int| 0 <= t < c.keyform_bindings ==> #[trigger] band_ok(tables, c.parameter_bindings as int, t)
}

/// The views of a sequence of binding bands.
pub open spec fn band_views(v: Seq<BindingBand>) -> Seq<Seq<ParameterBindingModel>> {
    v.map_values(|band: BindingBand| band@)
}

/// Reads the parameter bindings and groups them into binding bands.
pub fn parse_bindings(reader: &Reader, offsets: &Vec<usize>, counts: &Counts) -> (res: Result<Vec<BindingBand>, Error>)
    requires
        offsets@.len() == 160,
    ensures
        res is Ok <==> binding_sections_ok(reader.bytes().len(), offsets@, *counts) && bindings_ok(
            binding_tables(reader.bytes(), reader.order(), offsets@, *counts),
            *counts,
        ),
        res matches Ok(v) ==> v@.len() == counts.keyform_bindings && forall|t: int|
            0 <= t < v@.len() ==> (#[trigger] v@[t])@ == band_of(
                binding_tables(reader.bytes(), reader.order(), offsets@, *counts),
                counts.parameter_bindings as int,
                t,
            ),
        res matches Err(e) ==> e is InvalidMoc3,
{
    let ghost tables = binding_tables(reader.bytes(), reader.order(), offsets@, *counts);
    let ghost count = counts.parameter_bindings as int;
    let parameter_begins = read_i32(reader, offsets, 56, counts.parameters)?;
    let binding_parameters = expand_binding_parameters(&parameter_begins, counts.parameter_bindings)?;
    let band_binding_indices = read_i32(reader, offsets, 72, counts.parameter_binding_indices)?;
    let band_begins = read_i32(reader, offsets, 73, counts.keyform_bindings)?;
    let band_counts = read_i32(reader, offsets, 74, counts.keyform_bindings)?;
    let key_begins = read_i32(reader, offsets, 75, counts.parameter_bindings)?;
    let key_counts = read_i32(reader, offsets, 76, counts.parameter_bindings)?;
    let key_values = read_f32(reader, offsets, 77, counts.keys)?;

    let mut parameter_bindings: Vec<ParameterBinding> = Vec::new();
    let mut index: usize = 0;
    while index < counts.parameter_bindings
        invariant
            index <= counts.parameter_bindings,
            count == counts.parameter_bindings,
            binding_parameters@ == owners_of(tables.parameter_begins, count),
            tables == binding_tables(reader.bytes(), reader.order(), offsets@, *counts),
            key_begins@ == tables.key_begins,
            key_counts@ == tables.key_counts,
            key_values@ == tables.key_values,
            key_begins@.len() == count,
            key_counts@.len() == count,
            parameter_bindings@.len() == index,
            forall|k: int| 0 <= k < index ==> range_ok(#[trigger] tables.key_begins[k], tables.key_counts[k], tables.key_values.len()),
            forall|k: int| 0 <= k < index ==> (#[trigger] parameter_bindings@[k])@ == binding_of(tables, count, k),
        decreases counts.parameter_bindings - index,
    {
        let (start, end) = match checked_range(key_begins[index], key_counts[index], key_values.len()) {
            Ok(range) => range,
            Err(error) => {
                assert(!range_ok(tables.key_begins[index as int], tables.key_counts[index as int], tables.key_values.len()));
                return Err(error);
            },
        };
        let mut keys: Vec<u32> = Vec::new();
        let mut k = start;
        while k < end
            invariant
                start <= k <= end <= key_values@.len(),
                keys@ =~= key_values@.subrange(start as int, k as int),
            decreases end - k,
        {
            keys.push(key_values[k]);
            k = k + 1;
        }
        parameter_bindings.push(ParameterBinding::new(binding_parameters[index], keys));
        index = index + 1;
    }

    let mut bands: Vec<BindingBand> = Vec::new();
    let mut band: usize = 0;
    while band < counts.keyform_bindings
        invariant
            band <= counts.keyform_bindings,
            count == counts.parameter_bindings,
            tables == binding_tables(reader.bytes(), reader.order(), offsets@, *counts),
            band_binding_indices@ == tables.band_binding_indices,
            band_begins@ == tables.band_begins,
            band_counts@ == tables.band_counts,
            band_begins@.len() == counts.keyform_bindings,
            band_counts@.len() == counts.keyform_bindings,
            parameter_bindings@.len() == count,
            forall|k: int| 0 <= k < count ==> (#[trigger] parameter_bindings@[k])@ == binding_of(tables, count, k),
            bands@.len() == band,
            forall|t: int| 0 <= t < band ==> #[trigger] band_ok(tables, count, t),
            forall|t: int| 0 <= t < band ==> (#[trigger] bands@[t])@ == band_of(tables, count, t),
        decreases counts.keyform_bindings - band,
    {
        let (start, end) = match checked_range(band_begins[band], band_counts[band], band_binding_indices.len()) {
            Ok(range) => range,
            Err(error) => {
                assert(!band_ok(tables, count, band as int));
                return Err(error);
            },
        };
        let mut bindings: Vec<ParameterBinding> = Vec::new();
        let mut u = start;
        while u < end
            invariant
                start <= u <= end <= band_binding_indices@.len(),
                band < counts.keyform_bindings,
                count == counts.parameter_bindings,
                tables == binding_tables(reader.bytes(), reader.order(), offsets@, *counts),
                start == tables.band_begins[band as int],
                end == tables.band_begins[band as int] + tables.band_counts[band as int],
                band_binding_indices@ == tables.band_binding_indices,
                parameter_bindings@.len() == count,
                forall|k: int| 0 <= k < count ==> (#[trigger] parameter_bindings@[k])@ == binding_of(tables, count, k),
                forall|w: int| start <= w < u ==> 0 <= #[trigger] tables.band_binding_indices[w] < count,
                binding_views(bindings@) =~= band_of(tables, count, band as int).take(u - start),
            decreases end - u,
        {
            let value = band_binding_indices[u];
            if value < 0 || value as usize >= parameter_bindings.len() {
                assert(!band_ok(tables, count, band as int));
                assert(!bindings_ok(tables, *counts));
                return Err(invalid_moc3("binding index is outside the binding table"));
            }
            let binding = parameter_bindings[value as usize].duplicate();
            let ghost before = bindings@;
            bindings.push(binding);
            assert(binding_views(bindings@) =~= binding_views(before).push(binding@));
            u = u + 1;
        }
        let new_band = BindingBand::new(bindings);
        assert(band_ok(tables, count, band as int));
        bands.push(new_band);
        band = band + 1;
    }
    Ok(bands)
}

} // verus!
