use vstd::prelude::*;

verus! {

use core::marker::PhantomData;
use crate::device::{buffer_live, vertex_array_live, AttribPointer, Device};
use crate::shader::{slot_fits, Vertex, VertexAttributeSpec};
use crate::types::{component_size, spec_component_size};

/// A container for raw vertex data
pub struct VertexData {
    /// The encoded bytes of one vertex.
    pub data: Vec<u8>,
}

/// One field of a vertex record, as a declarative entry: the component
/// count, the component type tag, and whether the device should normalize.
///
/// A single field list is the one place a record's byte encoding and its
/// attribute descriptor are produced from, so the two can never drift apart.
#[derive(Clone, Copy, PartialEq, Eq, Structural)]
pub struct FieldSpec {
    /// How many components the field has.
    pub components: usize,
    /// The device type tag of one component.
    pub type_tag: u32,
    /// Whether the device should normalize the values on read.
    pub normalized: bool,
}

/// The number of bytes one field occupies.
pub open spec fn spec_field_size(f: FieldSpec) -> nat {
    (f.components as nat) * spec_component_size(f.type_tag)
}

/// The number of bytes one record of the given fields occupies.
pub open spec fn spec_element_size(fields: Seq<FieldSpec>) -> nat
    decreases fields.len(),
{
    if fields.len() == 0 {
        0
    } else {
        spec_field_size(fields[0]) + spec_element_size(fields.skip(1))
    }
}

/// The byte offset of field `i` within one encoded record: the total size of
/// the fields before it.
pub open spec fn spec_offset_of(fields: Seq<FieldSpec>, i: int) -> nat {
    spec_element_size(fields.take(i))
}

/// Appending one field adds its size to the record size.
proof fn lemma_element_size_snoc(fields: Seq<FieldSpec>, f: FieldSpec)
    ensures
        spec_element_size(fields.push(f)) == spec_element_size(fields) + spec_field_size(f),
    decreases fields.len(),
{
    if fields.len() == 0 {
        assert(fields.push(f).skip(1) =~= Seq::<FieldSpec>::empty());
        assert(spec_element_size(Seq::<FieldSpec>::empty()) == 0);
        assert(fields.push(f)[0] == f);
        assert(spec_element_size(fields.push(f)) == spec_field_size(f)
            + spec_element_size(fields.push(f).skip(1)));
    } else {
        assert(fields.push(f).skip(1) =~= fields.skip(1).push(f));
        lemma_element_size_snoc(fields.skip(1), f);
        assert(fields.push(f)[0] == fields[0]);
        assert(spec_element_size(fields.push(f)) == spec_field_size(fields[0])
            + spec_element_size(fields.push(f).skip(1)));
        assert(spec_element_size(fields) == spec_field_size(fields[0]) + spec_element_size(
            fields.skip(1),
        ));
    }
}

/// A prefix of a field list never occupies more bytes than the whole.
proof fn lemma_prefix_size_le(fields: Seq<FieldSpec>, i: int)
    requires
        0 <= i <= fields.len(),
    ensures
        spec_element_size(fields.take(i)) <= spec_element_size(fields),
    decreases fields.len() - i,
{
    if i == fields.len() {
        assert(fields.take(i) =~= fields);
    } else {
        assert(fields.take(i + 1) =~= fields.take(i).push(fields[i]));
        lemma_element_size_snoc(fields.take(i), fields[i]);
        lemma_prefix_size_le(fields, i + 1);
    }
}

/// Derives the attribute descriptor for records of the given field list:
/// slot `i` carries field `i`'s component count, type tag and normalize
/// flag, the record size as its stride, and the summed size of the fields
/// before it as its offset. The result is consistent with the byte encoding
/// of the same field list by construction.
pub fn derive_vertex_layout(fields: &Vec<FieldSpec>) -> (r: VertexAttributeSpec)
    requires
        spec_element_size(fields@) <= usize::MAX,
    ensures
        r.layouts@.len() == fields@.len(),
        forall|i: int|
            0 <= i < fields@.len() ==> r.layouts@[i] == (AttribPointer {
                components: fields@[i].components,
                type_tag: fields@[i].type_tag,
                normalized: fields@[i].normalized,
                stride: spec_element_size(fields@) as usize,
                offset: spec_offset_of(fields@, i) as usize,
            }),
        r.wf_for_size(spec_element_size(fields@)),
{
    let n = fields.len();
    let mut size: usize = 0;
    for i in 0..n
        invariant
            n == fields@.len(),
            spec_element_size(fields@) <= usize::MAX,
            size == spec_element_size(fields@.take(i as int)),
        decreases n - i,
    {
        proof {
            assert(fields@.take(i + 1 as int) =~= fields@.take(i as int).push(fields@[i as int]));
            lemma_element_size_snoc(fields@.take(i as int), fields@[i as int]);
            lemma_prefix_size_le(fields@, i + 1 as int);
        }
        size = size + fields[i].components * component_size(fields[i].type_tag);
    }
    proof {
        assert(fields@.take(n as int) =~= fields@);
    }
    let mut r = VertexAttributeSpec::new();
    let mut offset: usize = 0;
    for i in 0..n
        invariant
            n == fields@.len(),
            size == spec_element_size(fields@),
            spec_element_size(fields@) <= usize::MAX,
            offset == spec_offset_of(fields@, i as int),
            r.layouts@.len() == i,
            forall|j: int|
                0 <= j < i ==> r.layouts@[j] == (AttribPointer {
                    components: fields@[j].components,
                    type_tag: fields@[j].type_tag,
                    normalized: fields@[j].normalized,
                    stride: spec_element_size(fields@) as usize,
                    offset: spec_offset_of(fields@, j) as usize,
                }),
        decreases n - i,
    {
        proof {
            assert(fields@.take(i + 1 as int) =~= fields@.take(i as int).push(fields@[i as int]));
            lemma_element_size_snoc(fields@.take(i as int), fields@[i as int]);
            lemma_prefix_size_le(fields@, i + 1 as int);
        }
        r.push_layout(
            fields[i].components,
            fields[i].type_tag,
            fields[i].normalized,
            size,
            offset,
        );
        offset = offset + fields[i].components * component_size(fields[i].type_tag);
    }
    proof {
        assert forall|i: int| 0 <= i < r.layouts@.len() implies #[trigger] slot_fits(
            r.layouts@[i],
            spec_element_size(fields@),
        ) by {
            assert(fields@.take(i + 1) =~= fields@.take(i).push(fields@[i]));
            lemma_element_size_snoc(fields@.take(i), fields@[i]);
            lemma_prefix_size_le(fields@, i + 1);
        }
    }
    r
}

/// The byte encoding of one record given as its field chunks, in field
/// order, with no padding.
pub open spec fn spec_encode_record(rec: Seq<Seq<u8>>) -> Seq<u8>
    decreases rec.len(),
{
    if rec.len() == 0 {
        Seq::empty()
    } else {
        rec[0] + spec_encode_record(rec.skip(1))
    }
}

/// Whether `rec`'s chunks are sized exactly as the field list declares.
pub open spec fn spec_record_matches(fields: Seq<FieldSpec>, rec: Seq<Seq<u8>>) -> bool {
    &&& rec.len() == fields.len()
    &&& forall|i: int| 0 <= i < rec.len() ==> (#[trigger] rec[i]).len() == spec_field_size(fields[i])
}

/// A record whose chunks match its field list encodes to exactly the record
/// size.
proof fn lemma_encode_record_len(fields: Seq<FieldSpec>, rec: Seq<Seq<u8>>)
    requires
        spec_record_matches(fields, rec),
    ensures
        spec_encode_record(rec).len() == spec_element_size(fields),
    decreases rec.len(),
{
    if rec.len() > 0 {
        assert(spec_record_matches(fields.skip(1), rec.skip(1)));
        lemma_encode_record_len(fields.skip(1), rec.skip(1));
    }
}

/// The round-trip law for one record: encoding a record and re-reading field
/// `i` at its derived offset and size recovers the field's bytes exactly.
pub proof fn lemma_record_round_trip(fields: Seq<FieldSpec>, rec: Seq<Seq<u8>>, i: int)
    requires
        spec_record_matches(fields, rec),
        0 <= i < fields.len(),
    ensures
        spec_encode_record(rec).subrange(
            spec_offset_of(fields, i) as int,
            spec_offset_of(fields, i) + spec_field_size(fields[i]) as int,
        ) == rec[i],
    decreases i,
{
    lemma_encode_record_len(fields, rec);
    lemma_prefix_size_le(fields, i);
    assert(fields.take(i + 1) =~= fields.take(i).push(fields[i]));
    lemma_element_size_snoc(fields.take(i), fields[i]);
    lemma_prefix_size_le(fields, i + 1);
    if i == 0 {
        assert(fields.take(0) =~= Seq::<FieldSpec>::empty());
        assert(spec_encode_record(rec).subrange(0, spec_field_size(fields[0]) as int) =~= rec[0]);
    } else {
        let ftail = fields.skip(1);
        let rtail = rec.skip(1);
        assert(spec_record_matches(ftail, rtail));
        lemma_record_round_trip(ftail, rtail, i - 1);
        assert(fields.take(i).skip(1) =~= ftail.take(i - 1));
        assert(spec_element_size(fields.take(i)) == spec_field_size(fields[0])
            + spec_element_size(ftail.take(i - 1)));
        lemma_encode_record_len(ftail, rtail);
        let l0 = rec[0].len() as int;
        let off = spec_offset_of(fields, i) as int;
        let w = spec_field_size(fields[i]) as int;
        assert(spec_encode_record(rec).subrange(off, off + w) =~= spec_encode_record(
            rtail,
        ).subrange(off - l0, off - l0 + w));
        assert(ftail[i - 1] == fields[i]);
        assert(rtail[i - 1] == rec[i]);
    }
}

/// The byte encoding of a whole buffer of records: each record's encoding,
/// in record order.
pub open spec fn spec_encode_records(recs: Seq<Seq<Seq<u8>>>) -> Seq<u8>
    decreases recs.len(),
{
    if recs.len() == 0 {
        Seq::empty()
    } else {
        spec_encode_record(recs[0]) + spec_encode_records(recs.skip(1))
    }
}

/// The round-trip law for a whole buffer: when every record matches the
/// field list, the encoded buffer holds one record every record-size bytes,
/// and re-reading field `i` of record `v` with the derived descriptor's
/// stride and offset recovers the original field bytes exactly.
pub proof fn lemma_buffer_round_trip(fields: Seq<FieldSpec>, recs: Seq<Seq<Seq<u8>>>, v: int, i: int)
    requires
        forall|k: int| 0 <= k < recs.len() ==> spec_record_matches(fields, #[trigger] recs[k]),
        0 <= v < recs.len(),
        0 <= i < fields.len(),
    ensures
        spec_encode_records(recs).len() == recs.len() * spec_element_size(fields),
        spec_encode_records(recs).subrange(
            v * spec_element_size(fields) + spec_offset_of(fields, i),
            v * spec_element_size(fields) + spec_offset_of(fields, i) + spec_field_size(
                fields[i],
            ) as int,
        ) == recs[v][i],
    decreases v,
{
    lemma_encode_records_len(fields, recs);
    let size = spec_element_size(fields) as int;
    let off = spec_offset_of(fields, i) as int;
    let w = spec_field_size(fields[i]) as int;
    lemma_encode_record_len(fields, recs[0]);
    assert(fields.take(i + 1) =~= fields.take(i).push(fields[i]));
    lemma_element_size_snoc(fields.take(i), fields[i]);
    lemma_prefix_size_le(fields, i + 1);
    if v == 0 {
        lemma_record_round_trip(fields, recs[0], i);
        assert(spec_encode_records(recs).subrange(off, off + w) =~= spec_encode_record(
            recs[0],
        ).subrange(off, off + w));
        assert(v * spec_element_size(fields) == 0) by (nonlinear_arith)
            requires
                v == 0,
        ;
        assert(v * spec_element_size(fields) + spec_offset_of(fields, i) == off);
        assert(spec_encode_records(recs).subrange(
            v * spec_element_size(fields) + spec_offset_of(fields, i),
            v * spec_element_size(fields) + spec_offset_of(fields, i) + spec_field_size(
                fields[i],
            ) as int,
        ) == spec_encode_records(recs).subrange(off, off + w));
    } else {
        let tail = recs.skip(1);
        assert(forall|k: int|
            0 <= k < tail.len() ==> spec_record_matches(fields, #[trigger] tail[k]));
        lemma_buffer_round_trip(fields, tail, v - 1, i);
        lemma_encode_records_len(fields, tail);
        assert((v - 1) * size == v * size - size) by (nonlinear_arith);
        assert(v * size >= size) by (nonlinear_arith)
            requires
                v >= 1,
                size >= 0,
        ;
        assert(v * size + size <= recs.len() * size) by (nonlinear_arith)
            requires
                v + 1 <= recs.len(),
                size >= 0,
        ;
        assert((v - 1) * size + size <= tail.len() * size) by (nonlinear_arith)
            requires
                v <= tail.len(),
                v >= 1,
                size >= 0,
        ;
        assert(spec_encode_records(recs).subrange(v * size + off, v * size + off + w)
            =~= spec_encode_records(tail).subrange(
            (v - 1) * size + off,
            (v - 1) * size + off + w,
        ));
        assert(tail[v - 1] == recs[v]);
    }
    assert(spec_encode_records(recs).subrange(
        v * spec_element_size(fields) + spec_offset_of(fields, i),
        v * spec_element_size(fields) + spec_offset_of(fields, i) + spec_field_size(
            fields[i],
        ) as int,
    ) =~= recs[v][i]);
}

/// A buffer of matching records encodes to records-times-record-size bytes.
proof fn lemma_encode_records_len(fields: Seq<FieldSpec>, recs: Seq<Seq<Seq<u8>>>)
    requires
        forall|k: int| 0 <= k < recs.len() ==> spec_record_matches(fields, #[trigger] recs[k]),
    ensures
        spec_encode_records(recs).len() == recs.len() * spec_element_size(fields),
    decreases recs.len(),
{
    if recs.len() == 0 {
    } else {
        lemma_encode_record_len(fields, recs[0]);
        let tail = recs.skip(1);
        assert(forall|k: int|
            0 <= k < tail.len() ==> spec_record_matches(fields, #[trigger] tail[k]));
        lemma_encode_records_len(fields, tail);
        assert(recs.len() * spec_element_size(fields) == spec_element_size(fields) + (recs.len()
            - 1) * spec_element_size(fields)) by (nonlinear_arith);
    }
}

/// The byte encoding of a list of vertices: each vertex's encoding, in
/// vertex order.
pub open spec fn spec_encode_vertices<V: Vertex>(vs: Seq<V>) -> Seq<u8>
    decreases vs.len(),
{
    if vs.len() == 0 {
        Seq::empty()
    } else {
        vs[0].spec_data() + spec_encode_vertices(vs.skip(1))
    }
}

/// Appending one vertex appends its encoding.
proof fn lemma_encode_vertices_snoc<V: Vertex>(vs: Seq<V>, v: V)
    ensures
        spec_encode_vertices(vs.push(v)) == spec_encode_vertices(vs) + v.spec_data(),
    decreases vs.len(),
{
    if vs.len() == 0 {
        assert(vs.push(v).skip(1) =~= Seq::<V>::empty());
        assert(spec_encode_vertices(Seq::<V>::empty()) =~= Seq::<u8>::empty());
        assert(vs.push(v)[0] == v);
        assert(spec_encode_vertices(vs.push(v)) =~= v.spec_data());
        assert(spec_encode_vertices(vs) + v.spec_data() =~= v.spec_data());
    } else {
        assert(vs.push(v).skip(1) =~= vs.skip(1).push(v));
        lemma_encode_vertices_snoc(vs.skip(1), v);
        assert(vs.push(v)[0] == vs[0]);
        assert(spec_encode_vertices(vs.push(v)) =~= spec_encode_vertices(vs) + v.spec_data());
    }
}

/// A list of vertices encodes to exactly its length times the vertex size.
proof fn lemma_encode_vertices_len<V: Vertex>(vs: Seq<V>)
    ensures
        spec_encode_vertices(vs).len() == vs.len() * V::spec_size(),
    decreases vs.len(),
{
    if vs.len() == 0 {
    } else {
        vs[0].lemma_data_size();
        lemma_encode_vertices_len::<V>(vs.skip(1));
        assert(vs.len() * V::spec_size() == V::spec_size() + (vs.len() - 1) * V::spec_size())
            by (nonlinear_arith);
    }
}

/// Returns the byte encoding of a list of vertices, field by field in
/// declared order, with no padding beyond the per-vertex stride.
pub fn encode_vertices<V: Vertex>(vertices: &Vec<V>) -> (r: Vec<u8>)
    ensures
        r@ == spec_encode_vertices(vertices@),
        r@.len() == vertices@.len() * V::spec_size(),
{
    let mut r: Vec<u8> = Vec::new();
    let n = vertices.len();
    for i in 0..n
        invariant
            n == vertices@.len(),
            r@ == spec_encode_vertices(vertices@.take(i as int)),
    {
        let mut data = vertices[i].to_data();
        r.append(&mut data.data);
        proof {
            assert(vertices@.take(i + 1 as int) =~= vertices@.take(i as int).push(
                vertices@[i as int],
            ));
            lemma_encode_vertices_snoc(vertices@.take(i as int), vertices@[i as int]);
        }
    }
    proof {
        assert(vertices@.take(n as int) =~= vertices@);
        lemma_encode_vertices_len::<V>(vertices@);
    }
    r
}

/// The byte encoding of a list of 32-bit indices, little-endian, in order.
pub open spec fn spec_encode_indices(indices: Seq<u32>) -> Seq<u8>
    decreases indices.len(),
{
    if indices.len() == 0 {
        Seq::empty()
    } else {
        vstd::bytes::spec_u32_to_le_bytes(indices[0]) + spec_encode_indices(indices.skip(1))
    }
}

/// Appending one index appends its four bytes.
proof fn lemma_encode_indices_snoc(indices: Seq<u32>, x: u32)
    ensures
        spec_encode_indices(indices.push(x)) == spec_encode_indices(indices)
            + vstd::bytes::spec_u32_to_le_bytes(x),
    decreases indices.len(),
{
    vstd::bytes::lemma_auto_spec_u32_to_from_le_bytes();
    if indices.len() == 0 {
        assert(indices.push(x).skip(1) =~= Seq::<u32>::empty());
        assert(spec_encode_indices(Seq::<u32>::empty()) =~= Seq::<u8>::empty());
        assert(spec_encode_indices(indices.push(x)) =~= vstd::bytes::spec_u32_to_le_bytes(x));
        assert(spec_encode_indices(indices) + vstd::bytes::spec_u32_to_le_bytes(x)
            =~= vstd::bytes::spec_u32_to_le_bytes(x));
    } else {
        assert(indices.push(x).skip(1) =~= indices.skip(1).push(x));
        lemma_encode_indices_snoc(indices.skip(1), x);
        assert(spec_encode_indices(indices.push(x)) =~= spec_encode_indices(indices)
            + vstd::bytes::spec_u32_to_le_bytes(x));
    }
}

/// A list of indices encodes to four bytes each.
proof fn lemma_encode_indices_len(indices: Seq<u32>)
    ensures
        spec_encode_indices(indices).len() == 4 * indices.len(),
    decreases indices.len(),
{
    vstd::bytes::lemma_auto_spec_u32_to_from_le_bytes();
    if indices.len() > 0 {
        lemma_encode_indices_len(indices.skip(1));
    }
}

/// Decoding the `j`-th index from an encoded index list recovers the
/// original value: the index-buffer round trip.
pub proof fn lemma_index_round_trip(indices: Seq<u32>, j: int)
    requires
        0 <= j < indices.len(),
    ensures
        crate::device::spec_index_at(spec_encode_indices(indices), j) == indices[j],
    decreases j,
{
    vstd::bytes::lemma_auto_spec_u32_to_from_le_bytes();
    lemma_encode_indices_len(indices);
    if j == 0 {
        lemma_encode_indices_len(indices.skip(1));
        assert(spec_encode_indices(indices).subrange(0, 4)
            =~= vstd::bytes::spec_u32_to_le_bytes(indices[0]));
    } else {
        lemma_index_round_trip(indices.skip(1), j - 1);
        lemma_encode_indices_len(indices.skip(1));
        assert(spec_encode_indices(indices).subrange(4 * j, 4 * j + 4) =~= spec_encode_indices(
            indices.skip(1),
        ).subrange(4 * (j - 1), 4 * (j - 1) + 4));
        assert(indices.skip(1)[j - 1] == indices[j]);
    }
}

/// Returns the little-endian byte encoding of a list of 32-bit indices.
pub fn encode_indices(indices: &Vec<u32>) -> (r: Vec<u8>)
    ensures
        r@ == spec_encode_indices(indices@),
        r@.len() == 4 * indices@.len(),
{
    let mut r: Vec<u8> = Vec::new();
    let n = indices.len();
    for i in 0..n
        invariant
            n == indices@.len(),
            r@ == spec_encode_indices(indices@.take(i as int)),
    {
        let mut word = vstd::bytes::u32_to_le_bytes(indices[i]);
        r.append(&mut word);
        proof {
            assert(indices@.take(i + 1 as int) =~= indices@.take(i as int).push(
                indices@[i as int],
            ));
            lemma_encode_indices_snoc(indices@.take(i as int), indices@[i as int]);
        }
    }
    proof {
        assert(indices@.take(n as int) =~= indices@);
        lemma_encode_indices_len(indices@);
    }
    r
}

/// The error that `replace` reports when the caller's index-presence
/// assumption does not match the buffer's actual state.
#[derive(Clone, Copy, PartialEq, Eq, Structural, Debug)]
pub enum ReplaceError {
    /// Indices were given to a buffer without an index buffer, or withheld
    /// from a buffer that has one.
    IndexPresenceMismatch,
}

/// A device-resident vertex buffer: one array buffer, an optional index
/// buffer, and their element counts. The type parameter fixes the vertex
/// record type whose encoding fills the array buffer.
pub struct VertexBuffer<V> {
    vbo: u32,
    vao: u32,
    ibo: Option<u32>,
    vertex_count: usize,
    index_count: usize,
    _phantom: PhantomData<V>,
}

impl<V: Vertex> VertexBuffer<V> {
    /// The array-buffer handle.
    pub closed spec fn spec_vbo(self) -> u32 {
        self.vbo
    }

    /// The vertex-array-object handle.
    pub closed spec fn spec_vao(self) -> u32 {
        self.vao
    }

    /// The index-buffer handle, if the buffer has indices.
    pub closed spec fn spec_ibo(self) -> Option<u32> {
        self.ibo
    }

    /// The stored vertex count.
    pub closed spec fn spec_vertex_count(self) -> usize {
        self.vertex_count
    }

    /// The stored index count.
    pub closed spec fn spec_index_count(self) -> usize {
        self.index_count
    }

    /// Well-formedness against a device: all handles live, the index buffer
    /// present exactly when indices are counted, and the device storage
    /// sized to the stored counts.
    pub open spec fn wf(self, dev: Device) -> bool {
        &&& buffer_live(dev, self.spec_vbo())
        &&& vertex_array_live(dev, self.spec_vao())
        &&& match self.spec_ibo() {
            Some(h) => buffer_live(dev, h) && h != self.spec_vbo() && dev.buffers[h
                - 1].data@.len() == 4 * self.spec_index_count(),
            None => self.spec_index_count() == 0,
        }
        &&& dev.buffers[self.spec_vbo() - 1].data@.len() == self.spec_vertex_count()
            * V::spec_size()
    }

    /// The bytes the device holds for this buffer's vertices.
    pub open spec fn spec_vertex_bytes(self, dev: Device) -> Seq<u8> {
        dev.buffers[self.spec_vbo() - 1].data@
    }

    /// The bytes the device holds for this buffer's indices, empty when it
    /// has none.
    pub open spec fn spec_index_bytes(self, dev: Device) -> Seq<u8> {
        match self.spec_ibo() {
            Some(h) => dev.buffers[h - 1].data@,
            None => Seq::empty(),
        }
    }

    /// Creates a new vertex buffer from some vertices and, optionally,
    /// indices: fresh handles are generated and the encoded data uploaded
    /// with updatable storage semantics.
    pub fn new(dev: &mut Device, vertices: &Vec<V>, indices: Option<&Vec<u32>>) -> (r:
        VertexBuffer<V>)
        requires
            old(dev).buffers.len() + 2 <= u32::MAX,
            old(dev).vertex_arrays.len() < u32::MAX,
        ensures
            r.wf(*final(dev)),
            r.spec_vertex_count() == vertices@.len(),
            r.spec_index_count() == (match indices {
                Some(ix) => ix@.len(),
                None => 0,
            }),
            r.spec_ibo() is Some <==> indices is Some,
            r.spec_vao() == old(dev).vertex_arrays.len() + 1,
            r.spec_vbo() == old(dev).buffers.len() + 1,
            indices is Some ==> r.spec_ibo() == Some((old(dev).buffers.len() + 2) as u32),
            r.spec_vertex_bytes(*final(dev)) == spec_encode_vertices(vertices@),
            (match indices {
                Some(ix) => r.spec_index_bytes(*final(dev)) == spec_encode_indices(ix@),
                None => true,
            }),
            final(dev).buffers.len() == old(dev).buffers.len() + (if indices is Some {
                2int
            } else {
                1int
            }),
            forall|i: int|
                0 <= i < old(dev).buffers.len() ==> final(dev).buffers[i] == old(dev).buffers[i],
            final(dev).vertex_arrays@ == old(dev).vertex_arrays@.push(true),
            final(dev).bound_vertex_array == r.spec_vao(),
            final(dev).bound_array_buffer == r.spec_vbo(),
            final(dev).bound_element_buffer == (match r.spec_ibo() {
                Some(h) => h,
                None => old(dev).bound_element_buffer,
            }),
            final(dev).bound_program == old(dev).bound_program,
            crate::device::same_except_buffers_arrays_bindings(*old(dev), *final(dev)),
    {
        let vao = dev.gen_vertex_array();
        dev.bind_vertex_array(vao);
        let vbo = dev.gen_buffer();
        dev.bind_array_buffer(vbo);
        let data = encode_vertices(vertices);
        dev.buffer_data_array(data);
        let mut ibo: Option<u32> = None;
        let mut index_count: usize = 0;
        match indices {
            Some(ix) => {
                let h = dev.gen_buffer();
                dev.bind_element_buffer(h);
                let idata = encode_indices(ix);
                dev.buffer_data_element(idata);
                ibo = Some(h);
                index_count = ix.len();
            },
            None => {},
        }
        VertexBuffer {
            vbo,
            vao,
            ibo,
            vertex_count: vertices.len(),
            index_count,
            _phantom: PhantomData,
        }
    }

    /// Binds all of the device objects associated with this buffer.
    pub fn bind(&self, dev: &mut Device)
        requires
            self.wf(*old(dev)),
        ensures
            final(dev).bound_vertex_array == self.spec_vao(),
            final(dev).bound_array_buffer == self.spec_vbo(),
            final(dev).bound_element_buffer == (match self.spec_ibo() {
                Some(h) => h,
                None => old(dev).bound_element_buffer,
            }),
            final(dev).bound_program == old(dev).bound_program,
            crate::device::same_except_bindings(*old(dev), *final(dev)),
    {
        dev.bind_vertex_array(self.vao);
        dev.bind_array_buffer(self.vbo);
        match self.ibo {
            Some(h) => {
                dev.bind_element_buffer(h);
            },
            None => {},
        }
    }

    /// Returns the array-buffer handle: the identity of the device storage.
    pub fn vbo_handle(&self) -> (r: u32)
        ensures
            r == self.spec_vbo(),
    {
        self.vbo
    }

    /// Returns the vertex-array-object handle.
    pub fn vao_handle(&self) -> (r: u32)
        ensures
            r == self.spec_vao(),
    {
        self.vao
    }

    /// Returns the index-buffer handle, if the buffer has indices.
    pub fn ibo_handle(&self) -> (r: Option<u32>)
        ensures
            r == self.spec_ibo(),
    {
        self.ibo
    }

    /// Returns the number of vertices in the buffer.
    pub fn vertex_count(&self) -> (r: usize)
        ensures
            r == self.spec_vertex_count(),
    {
        self.vertex_count
    }

    /// Returns whether the buffer contains an index buffer.
    pub fn has_indices(&self) -> (r: bool)
        ensures
            r == (self.spec_ibo() is Some),
    {
        self.ibo.is_some()
    }

    /// Returns the number of indices in the buffer, or `0` if there are
    /// none.
    pub fn index_count(&self) -> (r: usize)
        ensures
            r == self.spec_index_count(),
    {
        self.index_count
    }

    /// Whether `update_buffer` takes the cheap in-place path: indices are
    /// given, an index buffer exists, and both counts are unchanged.
    pub open spec fn spec_replace_path(self, n_vertices: nat, indices: Option<Seq<u32>>) -> bool {
        match indices {
            Some(ix) => self.spec_ibo() is Some && self.spec_index_count() == ix.len()
                && self.spec_vertex_count() == n_vertices,
            None => false,
        }
    }

    /// Replaces the contents of the buffer(s) in place, without reallocating
    /// device storage.
    ///
    /// The caller must guarantee that the vertex and index counts are
    /// unchanged; only index presence is checked. If the supplied indices'
    /// presence does not match the buffer's, the call fails with a reported
    /// error and changes nothing.
    pub fn replace(&mut self, dev: &mut Device, vertices: &Vec<V>, indices: Option<&Vec<u32>>)
        -> (r: Result<(), ReplaceError>)
        requires
            old(self).wf(*old(dev)),
            ((indices is Some) == (old(self).spec_ibo() is Some)) ==> {
                &&& vertices@.len() == old(self).spec_vertex_count()
                &&& match indices {
                    Some(ix) => ix@.len() == old(self).spec_index_count(),
                    None => true,
                }
            },
        ensures
            *final(self) == *old(self),
            final(self).wf(*final(dev)),
            if (indices is Some) != (old(self).spec_ibo() is Some) {
                &&& r == Result::<(), ReplaceError>::Err(ReplaceError::IndexPresenceMismatch)
                &&& crate::device::device_unchanged(*old(dev), *final(dev))
            } else {
                &&& r is Ok
                &&& final(self).spec_vertex_bytes(*final(dev)) == spec_encode_vertices(vertices@)
                &&& (match indices {
                    Some(ix) => final(self).spec_index_bytes(*final(dev)) == spec_encode_indices(
                        ix@,
                    ),
                    None => true,
                })
                &&& final(dev).buffers.len() == old(dev).buffers.len()
                &&& final(dev).buffers[old(self).spec_vbo() - 1].allocations == old(
                    dev,
                ).buffers[old(self).spec_vbo() - 1].allocations
                &&& (match old(self).spec_ibo() {
                    Some(h) => final(dev).buffers[h - 1].allocations == old(dev).buffers[h
                        - 1].allocations,
                    None => true,
                })
                &&& forall|i: int|
                    0 <= i < old(dev).buffers.len() && i != old(self).spec_vbo() - 1 && (match old(
                        self,
                    ).spec_ibo() {
                        Some(h) => i != h - 1,
                        None => true,
                    }) ==> final(dev).buffers[i] == old(dev).buffers[i]
                &&& final(dev).bound_vertex_array == old(self).spec_vao()
                &&& final(dev).bound_array_buffer == old(self).spec_vbo()
                &&& crate::device::same_except_buffers_and_bindings(*old(dev), *final(dev))
            },
    {
        let presence_match = indices.is_some() == self.ibo.is_some();
        if !presence_match {
            return Err(ReplaceError::IndexPresenceMismatch);
        }
        self.bind(dev);
        match indices {
            Some(ix) => {
                let idata = encode_indices(ix);
                proof {
                    assert(dev.buffers[self.spec_ibo().unwrap() - 1].data@.len() == idata@.len());
                }
                dev.buffer_sub_data_element(&idata);
                proof {
                    assert(idata@ + old(dev).buffers[self.spec_ibo().unwrap()
                        - 1].data@.skip(idata@.len() as int) =~= idata@);
                }
            },
            None => {},
        }
        let vdata = encode_vertices(vertices);
        let ghost pre_sub = *dev;
        dev.buffer_sub_data_array(&vdata);
        proof {
            assert(vdata@ + pre_sub.buffers[self.spec_vbo() - 1].data@.skip(
                vdata@.len() as int,
            ) =~= vdata@);
        }
        Ok(())
    }

    /// Updates the contents of the buffer. When indices are given, an index
    /// buffer exists, and both counts are unchanged, the cheap in-place
    /// [`VertexBuffer::replace`] path is taken and no device storage is
    /// reallocated. Otherwise storage is reallocated; an index buffer is
    /// created when indices newly appear and destroyed when they newly
    /// disappear, and the stored counts are set to match the new input
    /// exactly.
    pub fn update_buffer(&mut self, dev: &mut Device, vertices: &Vec<V>, indices: Option<
        &Vec<u32>,
    >)
        requires
            old(self).wf(*old(dev)),
            old(dev).buffers.len() < u32::MAX,
            old(dev).buffers[old(self).spec_vbo() - 1].allocations < u64::MAX,
            (match old(self).spec_ibo() {
                Some(h) => old(dev).buffers[h - 1].allocations < u64::MAX,
                None => true,
            }),
        ensures
            final(self).wf(*final(dev)),
            final(self).spec_vao() == old(self).spec_vao(),
            final(self).spec_vbo() == old(self).spec_vbo(),
            final(self).spec_vertex_count() == vertices@.len(),
            final(self).spec_index_count() == (match indices {
                Some(ix) => ix@.len(),
                None => 0,
            }),
            (final(self).spec_ibo() is Some) == (indices is Some),
            final(self).spec_vertex_bytes(*final(dev)) == spec_encode_vertices(vertices@),
            (match indices {
                Some(ix) => final(self).spec_index_bytes(*final(dev)) == spec_encode_indices(ix@),
                None => true,
            }),
            final(dev).buffers[old(self).spec_vbo() - 1].allocations == old(dev).buffers[old(
                self,
            ).spec_vbo() - 1].allocations + (if old(self).spec_replace_path(
                vertices@.len(),
                match indices {
                    Some(ix) => Some(ix@),
                    None => None,
                },
            ) {
                0int
            } else {
                1int
            }),
            final(self).spec_ibo() == (if indices is None {
                Option::<u32>::None
            } else if old(self).spec_ibo() is Some {
                old(self).spec_ibo()
            } else {
                Some((old(dev).buffers.len() + 1) as u32)
            }),
            final(dev).buffers.len() == old(dev).buffers.len() + (if indices is Some && old(
                self,
            ).spec_ibo() is None {
                1int
            } else {
                0int
            }),
            (match (old(self).spec_ibo(), indices) {
                (Some(h), Some(ix)) => final(dev).buffers[h - 1].allocations == old(
                    dev,
                ).buffers[h - 1].allocations + (if old(self).spec_replace_path(
                    vertices@.len(),
                    Some(ix@),
                ) {
                    0int
                } else {
                    1int
                }),
                (Some(h), None) => !final(dev).buffers[h - 1].alive,
                _ => true,
            }),
            forall|i: int|
                0 <= i < old(dev).buffers.len() && i != old(self).spec_vbo() - 1 && (match old(
                    self,
                ).spec_ibo() {
                    Some(h) => i != h - 1,
                    None => true,
                }) ==> final(dev).buffers[i] == old(dev).buffers[i],
            crate::device::same_except_buffers_and_bindings(*old(dev), *final(dev)),
    {
        let take_replace = match indices {
            Some(ix) => self.ibo.is_some() && self.index_count == ix.len() && self.vertex_count
                == vertices.len(),
            None => false,
        };
        if take_replace {
            let r = self.replace(dev, vertices, indices);
            proof {
                assert(r is Ok);
            }
            return;
        }
        self.bind(dev);
        if indices.is_some() && self.ibo.is_none() {
            let h = dev.gen_buffer();
            dev.bind_element_buffer(h);
            self.ibo = Some(h);
            self.index_count = 0;
        }
        match self.ibo {
            Some(h) => {
                match indices {
                    Some(ix) => {
                        let idata = encode_indices(ix);
                        dev.buffer_data_element(idata);
                        self.index_count = ix.len();
                    },
                    None => {
                        dev.delete_buffer(h);
                        self.ibo = None;
                        self.index_count = 0;
                        dev.bind_array_buffer(self.vbo);
                    },
                }
            },
            None => {},
        }
        let vdata = encode_vertices(vertices);
        dev.buffer_data_array(vdata);
        self.vertex_count = vertices.len();
    }

    /// Produces an independent buffer with a snapshot of the current
    /// device-side contents, read back from the device: same counts,
    /// byte-for-byte identical contents, distinct underlying handles.
    pub fn clone_buffer(&self, dev: &mut Device) -> (r: VertexBuffer<V>)
        requires
            self.wf(*old(dev)),
            old(dev).buffers.len() + 2 <= u32::MAX,
            old(dev).vertex_arrays.len() < u32::MAX,
        ensures
            r.wf(*final(dev)),
            self.wf(*final(dev)),
            r.spec_vertex_count() == self.spec_vertex_count(),
            r.spec_index_count() == self.spec_index_count(),
            (r.spec_ibo() is Some) == (self.spec_ibo() is Some),
            r.spec_vao() == old(dev).vertex_arrays.len() + 1,
            r.spec_vbo() == old(dev).buffers.len() + (if self.spec_ibo() is Some {
                2int
            } else {
                1int
            }),
            (match r.spec_ibo() {
                Some(nh) => nh == old(dev).buffers.len() + 1,
                None => true,
            }),
            r.spec_vbo() != self.spec_vbo(),
            r.spec_vao() != self.spec_vao(),
            (match (r.spec_ibo(), self.spec_ibo()) {
                (Some(a), Some(b)) => a != b,
                _ => true,
            }),
            r.spec_vertex_bytes(*final(dev)) == self.spec_vertex_bytes(*old(dev)),
            r.spec_index_bytes(*final(dev)) == self.spec_index_bytes(*old(dev)),
            self.spec_vertex_bytes(*final(dev)) == self.spec_vertex_bytes(*old(dev)),
            self.spec_index_bytes(*final(dev)) == self.spec_index_bytes(*old(dev)),
            final(dev).buffers.len() == old(dev).buffers.len() + (if self.spec_ibo() is Some {
                2int
            } else {
                1int
            }),
            forall|i: int|
                0 <= i < old(dev).buffers.len() ==> final(dev).buffers[i] == old(dev).buffers[i],
            final(dev).vertex_arrays@ == old(dev).vertex_arrays@.push(true),
            crate::device::same_except_buffers_arrays_bindings(*old(dev), *final(dev)),
    {
        self.bind(dev);
        let vdata = dev.read_buffer_bytes(self.vbo);
        let vao = dev.gen_vertex_array();
        dev.bind_vertex_array(vao);
        let mut ibo: Option<u32> = None;
        match self.ibo {
            Some(h) => {
                let idata = dev.read_buffer_bytes(h);
                let nh = dev.gen_buffer();
                dev.bind_element_buffer(nh);
                dev.buffer_data_element(idata);
                ibo = Some(nh);
            },
            None => {},
        }
        let vbo = dev.gen_buffer();
        dev.bind_array_buffer(vbo);
        dev.buffer_data_array(vdata);
        VertexBuffer {
            vbo,
            vao,
            ibo,
            vertex_count: self.vertex_count,
            index_count: self.index_count,
            _phantom: PhantomData,
        }
    }

    /// Releases both device buffer handles exactly once.
    pub fn destroy(self, dev: &mut Device)
        requires
            self.wf(*old(dev)),
        ensures
            final(dev).buffers.len() == old(dev).buffers.len(),
            !final(dev).buffers[self.spec_vbo() - 1].alive,
            (match self.spec_ibo() {
                Some(h) => !final(dev).buffers[h - 1].alive,
                None => true,
            }),
            forall|i: int|
                0 <= i < old(dev).buffers.len() && i != self.spec_vbo() - 1 && (match self.spec_ibo() {
                    Some(h) => i != h - 1,
                    None => true,
                }) ==> final(dev).buffers[i] == old(dev).buffers[i],
            crate::device::same_except_buffers_and_bindings(*old(dev), *final(dev)),
    {
        dev.delete_buffer(self.vbo);
        match self.ibo {
            Some(h) => {
                dev.delete_buffer(h);
            },
            None => {},
        }
    }
}

/// A plain 2-component float vertex, carried as IEEE-754 bit patterns.
#[derive(Debug, Copy, Clone, PartialEq, Eq, Structural)]
pub struct Vec2Bits {
    pub x: u32,
    pub y: u32,
}

impl Vertex for Vec2Bits {
    /// Two floats: 8 bytes.
    open spec fn spec_size() -> nat {
        8
    }

    /// Each component as four little-endian bytes, in field order.
    open spec fn spec_data(self) -> Seq<u8> {
        vstd::bytes::spec_u32_to_le_bytes(self.x) + vstd::bytes::spec_u32_to_le_bytes(self.y)
    }

    /// One slot: two float components, unnormalized, stride 8, offset 0.
    open spec fn spec_layouts() -> Seq<AttribPointer> {
        seq![
            AttribPointer {
                components: 2,
                type_tag: crate::types::GL_FLOAT,
                normalized: false,
                stride: 8,
                offset: 0,
            },
        ]
    }

    proof fn lemma_data_size(self) {
        vstd::bytes::lemma_auto_spec_u32_to_from_le_bytes();
    }

    proof fn lemma_layouts_wf() {
        assert forall|i: int| 0 <= i < Self::spec_layouts().len() implies #[trigger] slot_fits(
            Self::spec_layouts()[i],
            Self::spec_size(),
        ) by {
            assert(Self::spec_layouts()[i] == Self::spec_layouts()[0]);
        }
    }

    fn to_data(&self) -> (r: VertexData) {
        let mut data = vstd::bytes::u32_to_le_bytes(self.x);
        let mut w = vstd::bytes::u32_to_le_bytes(self.y);
        data.append(&mut w);
        VertexData { data }
    }

    fn get_vertex_spec() -> (r: VertexAttributeSpec) {
        let mut fields: Vec<FieldSpec> = Vec::new();
        fields.push(
            FieldSpec { components: 2, type_tag: crate::types::GL_FLOAT, normalized: false },
        );
        proof {
            let tail = fields@.skip(1);
            assert(tail =~= Seq::<FieldSpec>::empty());
            assert(spec_element_size(Seq::<FieldSpec>::empty()) == 0);
            assert(spec_field_size(fields@[0]) == 8);
            assert(spec_element_size(fields@) == 8);
        }
        let r = derive_vertex_layout(&fields);
        proof {
            assert(fields@.take(0) =~= Seq::<FieldSpec>::empty());
            assert(spec_offset_of(fields@, 0) == 0);
            assert(r.layouts@ =~= Self::spec_layouts());
        }
        r
    }
}

} // verus!
