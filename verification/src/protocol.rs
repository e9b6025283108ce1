//! Typed access to the fields of the host's schema.
//!
//! The host keeps a schema database. A servlet asks for the fields it wants
//! by their dotted paths while it is set up, once for each [`Primitive`];
//! during an activation it reads the fields of the data at hand through the
//! primitives that were bound.
//!
//! Binding a primitive goes in two steps that share one outcome. First the
//! shape of the field in the schema is held against what the scalar type
//! asks for ([`Primitive::record_shape`]). Then the host is asked for an
//! accessor ([`Primitive::bind`]). Where either step fails the primitive
//! stays unbound, and an unbound primitive reads as `None`.

use vstd::prelude::*;
use std::collections::HashMap;
use std::marker::PhantomData;
use std::rc::Rc;
use crate::host::{
    accessor_step, ask_accessor, ask_field_info, ask_instance_read, field_info_step,
    instance_read_answer, instance_read_step, text_of, FieldInfoReply, Host, ReadReply, HOST_FAILURE, NO_ACCESSOR,
};
use crate::pipe::PipeDescriptor;
use crate::plumber_api_call::{get_cstr, spec_get_cstr};
use crate::scalar::{
    lemma_pow256_values, machine_reads_probe_as, native_byte_order, read_signed, read_unsigned,
    signed_value, spec_order_of_probe, unsigned_value, ByteOrder, Float32, Float64,
};

verus! {

/// The shape of a field as the schema database has it.
#[derive(Clone, Copy, Debug, PartialEq, Eq, Structural)]
pub struct PrimitiveTypeShape {
    /// Where the field starts in its type, in bytes.
    pub offset: u32,
    /// The size of the field in bytes.
    pub size: u32,
    pub is_numeric: bool,
    pub is_signed: bool,
    pub is_float: bool,
    pub is_primitive_token: bool,
    pub is_compound: bool,
}

impl Default for PrimitiveTypeShape {
    fn default() -> (shape: PrimitiveTypeShape)
        ensures
            shape == PrimitiveTypeShape::spec_default(),
    {
        PrimitiveTypeShape {
            offset: 0,
            size: 0,
            is_numeric: false,
            is_signed: false,
            is_float: false,
            is_primitive_token: false,
            is_compound: false,
        }
    }
}

impl PrimitiveTypeShape {
    /// The shape of nothing: no size and no property.
    pub open spec fn spec_default() -> PrimitiveTypeShape {
        PrimitiveTypeShape {
            offset: 0,
            size: 0,
            is_numeric: false,
            is_signed: false,
            is_float: false,
            is_primitive_token: false,
            is_compound: false,
        }
    }

    /// The shape that a scalar of `size` bytes asks for: a number that is
    /// neither a token nor made of parts.
    pub open spec fn spec_scalar(size: u32, is_signed: bool, is_float: bool) -> PrimitiveTypeShape {
        PrimitiveTypeShape {
            offset: 0,
            size,
            is_numeric: true,
            is_signed,
            is_float,
            is_primitive_token: false,
            is_compound: false,
        }
    }

    /// The two shapes agree in size and in every property. Where the field
    /// lies in its type plays no part.
    pub open spec fn agrees_with(self, other: PrimitiveTypeShape) -> bool {
        &&& self.size == other.size
        &&& self.is_numeric == other.is_numeric
        &&& self.is_signed == other.is_signed
        &&& self.is_float == other.is_float
        &&& self.is_primitive_token == other.is_primitive_token
        &&& self.is_compound == other.is_compound
    }

    /// The size of the field in bytes.
    pub fn type_size(&self) -> (size: u32)
        ensures
            size == self.size,
    {
        self.size
    }

    /// Whether the shape is that of a scalar of `size` bytes with the given
    /// signedness and floating-point-ness.
    pub fn is_scalar(&self, size: u32, is_signed: bool, is_float: bool) -> (r: bool)
        ensures
            r == self.agrees_with(PrimitiveTypeShape::spec_scalar(size, is_signed, is_float)),
    {
        self.size == size && self.is_numeric && self.is_signed == is_signed && self.is_float
            == is_float && !self.is_primitive_token && !self.is_compound
    }
}

/// A Rust type that stands for a scalar of the schema.
pub trait PrimitiveTypeTag<T: Sized + Default> {
    /// The shape that a field must have to be read as this type.
    spec fn required_shape() -> PrimitiveTypeShape;

    /// The value that the bytes of a field stand for.
    spec fn spec_from_bytes(bytes: Seq<u8>, order: ByteOrder) -> T;

    /// Whether a field of the given shape can be read as this type.
    fn validate_type_shape(shape: &PrimitiveTypeShape) -> (ok: bool)
        ensures
            ok == shape.agrees_with(Self::required_shape()),
    ;

    /// The number of bytes of a value of this type.
    fn byte_size() -> (size: usize)
        ensures
            size == Self::required_shape().size,
    ;

    /// The value that the bytes of a field stand for.
    fn from_bytes(bytes: &[u8], order: ByteOrder) -> (value: T)
        requires
            bytes@.len() == Self::required_shape().size,
        ensures
            value == Self::spec_from_bytes(bytes@, order),
    ;
}

impl PrimitiveTypeTag<i8> for i8 {
    open spec fn required_shape() -> PrimitiveTypeShape {
        PrimitiveTypeShape::spec_scalar(1, true, false)
    }

    open spec fn spec_from_bytes(bytes: Seq<u8>, order: ByteOrder) -> i8 {
        signed_value(bytes, order) as i8
    }

    fn validate_type_shape(shape: &PrimitiveTypeShape) -> (ok: bool) {
        shape.is_scalar(1, true, false)
    }

    fn byte_size() -> (size: usize) {
        1
    }

    fn from_bytes(bytes: &[u8], order: ByteOrder) -> (value: i8) {
        proof {
            lemma_pow256_values();
        }
        read_signed(bytes, order) as i8
    }
}

impl PrimitiveTypeTag<i16> for i16 {
    open spec fn required_shape() -> PrimitiveTypeShape {
        PrimitiveTypeShape::spec_scalar(2, true, false)
    }

    open spec fn spec_from_bytes(bytes: Seq<u8>, order: ByteOrder) -> i16 {
        signed_value(bytes, order) as i16
    }

    fn validate_type_shape(shape: &PrimitiveTypeShape) -> (ok: bool) {
        shape.is_scalar(2, true, false)
    }

    fn byte_size() -> (size: usize) {
        2
    }

    fn from_bytes(bytes: &[u8], order: ByteOrder) -> (value: i16) {
        proof {
            lemma_pow256_values();
        }
        read_signed(bytes, order) as i16
    }
}

impl PrimitiveTypeTag<i32> for i32 {
    open spec fn required_shape() -> PrimitiveTypeShape {
        PrimitiveTypeShape::spec_scalar(4, true, false)
    }

    open spec fn spec_from_bytes(bytes: Seq<u8>, order: ByteOrder) -> i32 {
        signed_value(bytes, order) as i32
    }

    fn validate_type_shape(shape: &PrimitiveTypeShape) -> (ok: bool) {
        shape.is_scalar(4, true, false)
    }

    fn byte_size() -> (size: usize) {
        4
    }

    fn from_bytes(bytes: &[u8], order: ByteOrder) -> (value: i32) {
        proof {
            lemma_pow256_values();
        }
        read_signed(bytes, order) as i32
    }
}

impl PrimitiveTypeTag<i64> for i64 {
    open spec fn required_shape() -> PrimitiveTypeShape {
        PrimitiveTypeShape::spec_scalar(8, true, false)
    }

    open spec fn spec_from_bytes(bytes: Seq<u8>, order: ByteOrder) -> i64 {
        signed_value(bytes, order) as i64
    }

    fn validate_type_shape(shape: &PrimitiveTypeShape) -> (ok: bool) {
        shape.is_scalar(8, true, false)
    }

    fn byte_size() -> (size: usize) {
        8
    }

    fn from_bytes(bytes: &[u8], order: ByteOrder) -> (value: i64) {
        read_signed(bytes, order)
    }
}

impl PrimitiveTypeTag<u8> for u8 {
    open spec fn required_shape() -> PrimitiveTypeShape {
        PrimitiveTypeShape::spec_scalar(1, false, false)
    }

    open spec fn spec_from_bytes(bytes: Seq<u8>, order: ByteOrder) -> u8 {
        unsigned_value(bytes, order) as u8
    }

    fn validate_type_shape(shape: &PrimitiveTypeShape) -> (ok: bool) {
        shape.is_scalar(1, false, false)
    }

    fn byte_size() -> (size: usize) {
        1
    }

    fn from_bytes(bytes: &[u8], order: ByteOrder) -> (value: u8) {
        proof {
            lemma_pow256_values();
        }
        read_unsigned(bytes, order) as u8
    }
}

impl PrimitiveTypeTag<u16> for u16 {
    open spec fn required_shape() -> PrimitiveTypeShape {
        PrimitiveTypeShape::spec_scalar(2, false, false)
    }

    open spec fn spec_from_bytes(bytes: Seq<u8>, order: ByteOrder) -> u16 {
        unsigned_value(bytes, order) as u16
    }

    fn validate_type_shape(shape: &PrimitiveTypeShape) -> (ok: bool) {
        shape.is_scalar(2, false, false)
    }

    fn byte_size() -> (size: usize) {
        2
    }

    fn from_bytes(bytes: &[u8], order: ByteOrder) -> (value: u16) {
        proof {
            lemma_pow256_values();
        }
        read_unsigned(bytes, order) as u16
    }
}

impl PrimitiveTypeTag<u32> for u32 {
    open spec fn required_shape() -> PrimitiveTypeShape {
        PrimitiveTypeShape::spec_scalar(4, false, false)
    }

    open spec fn spec_from_bytes(bytes: Seq<u8>, order: ByteOrder) -> u32 {
        unsigned_value(bytes, order) as u32
    }

    fn validate_type_shape(shape: &PrimitiveTypeShape) -> (ok: bool) {
        shape.is_scalar(4, false, false)
    }

    fn byte_size() -> (size: usize) {
        4
    }

    fn from_bytes(bytes: &[u8], order: ByteOrder) -> (value: u32) {
        proof {
            lemma_pow256_values();
        }
        read_unsigned(bytes, order) as u32
    }
}

impl PrimitiveTypeTag<u64> for u64 {
    open spec fn required_shape() -> PrimitiveTypeShape {
        PrimitiveTypeShape::spec_scalar(8, false, false)
    }

    open spec fn spec_from_bytes(bytes: Seq<u8>, order: ByteOrder) -> u64 {
        unsigned_value(bytes, order) as u64
    }

    fn validate_type_shape(shape: &PrimitiveTypeShape) -> (ok: bool) {
        shape.is_scalar(8, false, false)
    }

    fn byte_size() -> (size: usize) {
        8
    }

    fn from_bytes(bytes: &[u8], order: ByteOrder) -> (value: u64) {
        read_unsigned(bytes, order)
    }
}

impl PrimitiveTypeTag<Float32> for Float32 {
    open spec fn required_shape() -> PrimitiveTypeShape {
        PrimitiveTypeShape::spec_scalar(4, true, true)
    }

    open spec fn spec_from_bytes(bytes: Seq<u8>, order: ByteOrder) -> Float32 {
        Float32 { bits: unsigned_value(bytes, order) as u32 }
    }

    fn validate_type_shape(shape: &PrimitiveTypeShape) -> (ok: bool) {
        shape.is_scalar(4, true, true)
    }

    fn byte_size() -> (size: usize) {
        4
    }

    fn from_bytes(bytes: &[u8], order: ByteOrder) -> (value: Float32) {
        proof {
            lemma_pow256_values();
        }
        Float32 { bits: read_unsigned(bytes, order) as u32 }
    }
}

impl PrimitiveTypeTag<Float64> for Float64 {
    open spec fn required_shape() -> PrimitiveTypeShape {
        PrimitiveTypeShape::spec_scalar(8, true, true)
    }

    open spec fn spec_from_bytes(bytes: Seq<u8>, order: ByteOrder) -> Float64 {
        Float64 { bits: unsigned_value(bytes, order) as u64 }
    }

    fn validate_type_shape(shape: &PrimitiveTypeShape) -> (ok: bool) {
        shape.is_scalar(8, true, true)
    }

    fn byte_size() -> (size: usize) {
        8
    }

    fn from_bytes(bytes: &[u8], order: ByteOrder) -> (value: Float64) {
        Float64 { bits: read_unsigned(bytes, order) }
    }
}

/// The data of one activation, as the host has buffered it. The host makes
/// one for each activation and keeps it; this is only its address, with the
/// order in which the machine lays out the bytes of a number.
pub struct TypeInstanceObject {
    /// The address of the host's object, never zero.
    object: usize,
    /// The byte order of the buffer.
    order: ByteOrder,
}

/// What a read of `size` bytes yields for the host's answer: the bytes, if
/// the host read exactly as many as were asked for.
pub open spec fn spec_accept_read(reply: ReadReply, size: usize) -> Option<Seq<u8>> {
    if reply.count == size && reply.data@.len() == size {
        Some(reply.data@)
    } else {
        None
    }
}

/// `r` holds the bytes that a read of `size` bytes yields for the host's
/// answer `reply`.
pub open spec fn is_accepted_read(r: Option<Vec<u8>>, reply: ReadReply, size: usize) -> bool {
    &&& r is Some <==> spec_accept_read(reply, size) is Some
    &&& r matches Some(data) ==> spec_accept_read(reply, size) == Some(data@)
}

/// See [`spec_accept_read`].
pub fn accept_read(reply: ReadReply, size: usize) -> (r: Option<Vec<u8>>)
    ensures
        is_accepted_read(r, reply, size),
{
    if reply.count == size && reply.data.len() == size {
        Some(reply.data)
    } else {
        None
    }
}

impl TypeInstanceObject {
    /// The address of the host's object.
    pub closed spec fn address(&self) -> usize {
        self.object
    }

    /// The byte order in which the fields are read.
    pub closed spec fn byte_order(&self) -> ByteOrder {
        self.order
    }

    /// The type instance at the address `raw`; none at the null address.
    pub fn from_raw(raw: usize) -> (r: Option<TypeInstanceObject>)
        ensures
            r is Some <==> raw != 0,
            r matches Some(instance) ==> instance.address() == raw,
            r matches Some(instance) ==> exists|value: u16|
                (#[trigger] machine_reads_probe_as(value)) && instance.byte_order()
                    == spec_order_of_probe(value),
    {
        if raw != 0 {
            Some(TypeInstanceObject { object: raw, order: native_byte_order() })
        } else {
            None
        }
    }

    /// The byte order in which the fields are read.
    pub fn order(&self) -> (order: ByteOrder)
        ensures
            order == self.byte_order(),
    {
        self.order
    }

    /// Reads `size` bytes through the accessor `acc`. Anything but a read of
    /// exactly `size` bytes gives `None`.
    pub fn read<H: Host>(&mut self, host: &mut H, acc: u32, size: usize) -> (r: Option<Vec<u8>>)
        ensures
            *final(self) == *old(self),
            r matches Some(data) ==> data@.len() == size,
            exists|reply: ReadReply|
                (#[trigger] instance_read_answer(
                    *old(host),
                    old(self).address(),
                    acc,
                    size,
                    reply,
                )) && is_accepted_read(r, reply, size),
            exists|h: &mut H, reply: ReadReply|
                *h == *old(host) && *final(h) == *final(host) && #[trigger] call_ensures(
                    H::type_instance_read,
                    (h, old(self).address(), acc, size),
                    reply,
                ) && is_accepted_read(r, reply, size),
    {
        assert(self.address() == self.object);
        let reply = ask_instance_read(host, self.object, acc, size);
        accept_read(reply, size)
    }
}

/// The schema database of one servlet instance. The host makes it before the
/// servlet and disposes of it after the servlet; this is only its address.
pub struct TypeModelObject {
    /// The address of the host's object, never zero.
    object: usize,
}

/// The check of one field's shape against the scalar type `T`. It is made
/// for one field and used up by the one validation that it is made for.
pub struct TypeShapeChecker<T: PrimitiveTypeTag<T> + Default> {
    /// The shape that the schema has for the field.
    shape: PrimitiveTypeShape,
    phantom: PhantomData<T>,
}

impl<T: PrimitiveTypeTag<T> + Default> TypeShapeChecker<T> {
    /// The shape under check.
    pub closed spec fn shape(&self) -> PrimitiveTypeShape {
        self.shape
    }

    /// A check of `shape`.
    pub fn new(shape: PrimitiveTypeShape) -> (checker: Self)
        ensures
            checker.shape() == shape,
    {
        TypeShapeChecker { shape, phantom: PhantomData }
    }

    /// Whether the shape is what `T` asks for.
    pub fn do_check(&self) -> (ok: bool)
        ensures
            ok == self.shape().agrees_with(T::required_shape()),
    {
        T::validate_type_shape(&self.shape)
    }
}

/// Runs a shape check and uses it up. The status is zero where the shape is
/// what the scalar type asks for, and [`HOST_FAILURE`] where it is not.
pub fn validate_primitive_type_shape<T: PrimitiveTypeTag<T> + Default>(
    checker: TypeShapeChecker<T>,
) -> (status: i32)
    ensures
        status == if checker.shape().agrees_with(T::required_shape()) {
            0i32
        } else {
            HOST_FAILURE
        },
{
    if checker.do_check() {
        0
    } else {
        HOST_FAILURE
    }
}

/// A field of the schema, to be read as the scalar type `ActualType`. It is
/// made unbound, is bound at most once, and stays bound.
pub struct Primitive<ActualType: PrimitiveTypeTag<ActualType> + Default> {
    /// The host's accessor to the field, once bound.
    accessor: Option<u32>,
    /// The shape of the field as last reported by the schema.
    shape: PrimitiveTypeShape,
    _phantom: PhantomData<ActualType>,
}

impl<T: PrimitiveTypeTag<T> + Default> Primitive<T> {
    /// The host's accessor to the field; `None` while the primitive is
    /// unbound.
    pub closed spec fn accessor(&self) -> Option<u32> {
        self.accessor
    }

    /// The shape of the field as last reported by the schema.
    pub closed spec fn shape(&self) -> PrimitiveTypeShape {
        self.shape
    }

    /// The primitive has been bound to a field.
    pub open spec fn is_bound(&self) -> bool {
        self.accessor() is Some
    }

    /// The first step of a binding, as a relation: `before` and the host's
    /// report on the field give `after` and the answer `ok`. A failed report
    /// changes nothing. Otherwise the reported shape is recorded and `ok`
    /// says whether it is what the scalar type asks for. No step of this
    /// kind binds the primitive.
    pub open spec fn validation_step(
        before: Self,
        reply: FieldInfoReply,
        after: Self,
        ok: bool,
    ) -> bool {
        if reply.status == HOST_FAILURE {
            !ok && after == before
        } else {
            &&& after.accessor() == before.accessor()
            &&& after.shape() == reply.shape
            &&& ok == reply.shape.agrees_with(T::required_shape())
        }
    }

    /// The second step of a binding, as a relation: `before` and the host's
    /// accessor give `after` and the answer `ok`. A primitive that is bound
    /// already, and one for which the host has no accessor, stay as they
    /// are.
    pub open spec fn binding_step(before: Self, accessor: u32, after: Self, ok: bool) -> bool {
        if before.is_bound() || accessor == NO_ACCESSOR {
            !ok && after == before
        } else {
            &&& ok
            &&& after.accessor() == Some(accessor)
            &&& after.shape() == before.shape()
        }
    }

    /// What [`Primitive::value_of`] returns: the value that the host's
    /// answer to a read stands for, if the primitive is bound and the host
    /// read exactly the bytes of one value.
    pub open spec fn spec_value_of(&self, reply: ReadReply, order: ByteOrder) -> Option<T> {
        if self.is_bound() {
            match spec_accept_read(reply, T::required_shape().size as usize) {
                Some(bytes) => Some(T::spec_from_bytes(bytes, order)),
                None => None,
            }
        } else {
            None
        }
    }

    /// A field whose shape in the schema is not what the scalar type asks
    /// for, or whose shape the host cannot report, fails the first step of
    /// the binding; the primitive is left unbound, and whatever the host
    /// answers to a read, it reads as `None`.
    pub proof fn lemma_mismatch_leaves_unbound(
        before: Self,
        reply: FieldInfoReply,
        after: Self,
        ok: bool,
        read: ReadReply,
        order: ByteOrder,
    )
        requires
            !before.is_bound(),
            Self::validation_step(before, reply, after, ok),
            reply.status == HOST_FAILURE || !reply.shape.agrees_with(T::required_shape()),
        ensures
            !ok,
            !after.is_bound(),
            after.spec_value_of(read, order) is None,
    {
    }

    /// A bound primitive stays bound to the accessor it has: a second
    /// binding fails and changes nothing.
    pub proof fn lemma_binding_is_final(before: Self, accessor: u32, after: Self, ok: bool)
        requires
            before.is_bound(),
            Self::binding_step(before, accessor, after, ok),
        ensures
            !ok,
            after == before,
    {
    }

    /// An unbound primitive.
    pub fn new() -> (primitive: Primitive<T>)
        ensures
            !primitive.is_bound(),
            primitive.shape() == PrimitiveTypeShape::spec_default(),
    {
        Primitive { accessor: None, shape: PrimitiveTypeShape::default(), _phantom: PhantomData }
    }

    /// Whether the primitive has been bound to a field.
    pub fn bound(&self) -> (r: bool)
        ensures
            r == self.is_bound(),
    {
        self.accessor.is_some()
    }

    /// The first step of a binding: takes the host's report on the field and
    /// holds the shape against the scalar type; see
    /// [`Primitive::validation_step`].
    pub fn record_shape(&mut self, reply: FieldInfoReply) -> (ok: bool)
        ensures
            Self::validation_step(*old(self), reply, *final(self), ok),
    {
        if reply.status == HOST_FAILURE {
            return false;
        }
        self.shape = reply.shape;
        validate_primitive_type_shape(TypeShapeChecker::<T>::new(self.shape)) == 0
    }

    /// The second step of a binding: takes the host's accessor; see
    /// [`Primitive::binding_step`].
    pub fn bind(&mut self, accessor: u32) -> (ok: bool)
        ensures
            Self::binding_step(*old(self), accessor, *final(self), ok),
    {
        if self.accessor.is_some() || accessor == NO_ACCESSOR {
            return false;
        }
        self.accessor = Some(accessor);
        true
    }

    /// The value that the host's answer to a read stands for; see
    /// [`Primitive::spec_value_of`].
    pub fn value_of(&self, reply: ReadReply, order: ByteOrder) -> (r: Option<T>)
        ensures
            r == self.spec_value_of(reply, order),
    {
        if self.accessor.is_none() {
            return None;
        }
        match accept_read(reply, T::byte_size()) {
            Some(data) => Some(T::from_bytes(data.as_slice(), order)),
            None => None,
        }
    }

    /// Reads the field from the data of the activation at hand. An unbound
    /// primitive, and a read of anything but exactly the bytes of one value,
    /// give `None`; no part of a value is ever returned.
    pub fn get<H: Host>(&self, host: &mut H, type_inst: &mut TypeInstanceObject) -> (r: Option<T>)
        ensures
            *final(type_inst) == *old(type_inst),
            !self.is_bound() ==> r is None && *final(host) == *old(host),
            self.is_bound() ==> exists|reply: ReadReply|
                (#[trigger] instance_read_answer(
                    *old(host),
                    old(type_inst).address(),
                    self.accessor()->0,
                    T::required_shape().size as usize,
                    reply,
                )) && r == self.spec_value_of(reply, old(type_inst).byte_order()),
            self.is_bound() ==> exists|reply: ReadReply|
                (#[trigger] instance_read_step(
                    *old(host),
                    old(type_inst).address(),
                    self.accessor()->0,
                    T::required_shape().size as usize,
                    reply,
                    *final(host),
                )) && r == self.spec_value_of(reply, old(type_inst).byte_order()),
            self.is_bound() ==> exists|h: &mut H, reply: ReadReply|
                *h == *old(host) && *final(h) == *final(host) && #[trigger] call_ensures(
                    H::type_instance_read,
                    (
                        h,
                        old(type_inst).address(),
                        self.accessor()->0,
                        T::required_shape().size as usize,
                    ),
                    reply,
                ) && r == self.spec_value_of(reply, old(type_inst).byte_order()),
    {
        match self.accessor {
            Some(acc) => {
                assert(type_inst.address() == type_inst.object);
                let reply = ask_instance_read(host, type_inst.object, acc, T::byte_size());
                self.value_of(reply, type_inst.order)
            },
            None => None,
        }
    }
}

/// What reading two fields of one type instance comes to, with the host in
/// the state `host` at first and in the state `after` at last: both values,
/// or nothing. The first field is read first. The second is read only where
/// the first gave a value; where the first is unbound, the host is not asked
/// at all.
pub open spec fn both_read<T: PrimitiveTypeTag<T> + Default, U: PrimitiveTypeTag<U> + Default, H: Host>(
    first: Primitive<T>,
    second: Primitive<U>,
    host: H,
    type_inst: TypeInstanceObject,
    after: H,
    r: Option<(T, U)>,
) -> bool {
    if !first.is_bound() {
        r is None && after == host
    } else {
        exists|one: ReadReply, then: H|
            (#[trigger] instance_read_step(
                host,
                type_inst.address(),
                first.accessor()->0,
                T::required_shape().size as usize,
                one,
                then,
            )) && match first.spec_value_of(one, type_inst.byte_order()) {
                None => r is None && after == then,
                Some(x) => if !second.is_bound() {
                    r is None && after == then
                } else {
                    exists|two: ReadReply|
                        (#[trigger] instance_read_step(
                            then,
                            type_inst.address(),
                            second.accessor()->0,
                            U::required_shape().size as usize,
                            two,
                            after,
                        )) && r == match second.spec_value_of(two, type_inst.byte_order()) {
                            Some(y) => Some((x, y)),
                            None => None,
                        }
                },
            }
    }
}

/// Reads two fields from the data of the activation at hand and gives both
/// values or nothing: where either field is unbound, or either read gives
/// anything but exactly the bytes of one value, there is no result to work
/// on.
pub fn get_both<T: PrimitiveTypeTag<T> + Default, U: PrimitiveTypeTag<U> + Default, H: Host>(
    first: &Primitive<T>,
    second: &Primitive<U>,
    host: &mut H,
    type_inst: &mut TypeInstanceObject,
) -> (r: Option<(T, U)>)
    ensures
        *final(type_inst) == *old(type_inst),
        both_read(*first, *second, *old(host), *old(type_inst), *final(host), r),
        !first.is_bound() || !second.is_bound() ==> r is None,
{
    match first.get(host, type_inst) {
        Some(x) => match second.get(host, type_inst) {
            Some(y) => Some((x, y)),
            None => None,
        },
        None => None,
    }
}

impl TypeModelObject {
    /// The address of the host's object.
    pub closed spec fn address(&self) -> usize {
        self.object
    }

    /// The type model at the address `raw`; none at the null address.
    pub fn from_raw(raw: usize) -> (r: Option<TypeModelObject>)
        ensures
            r is Some <==> raw != 0,
            r matches Some(model) ==> model.address() == raw,
    {
        if raw != 0 {
            Some(TypeModelObject { object: raw })
        } else {
            None
        }
    }

    /// The first step of a binding: asks the host for the shape of the field
    /// at `path` of the type of `pipe` and holds it against the scalar type.
    /// The check runs here, once for the binding, not once for each
    /// activation.
    pub fn _add_type_shape_check<T, H: Host>(
        &self,
        host: &mut H,
        pipe: PipeDescriptor,
        path: Option<&Vec<u8>>,
        primitive: &mut Primitive<T>,
    ) -> (ok: bool) where T: PrimitiveTypeTag<T> + Default
        ensures
            exists|reply: FieldInfoReply|
                (#[trigger] field_info_step(
                    *old(host),
                    self.address(),
                    pipe,
                    text_of(path),
                    reply,
                    *final(host),
                )) && Primitive::<T>::validation_step(
                    *old(primitive),
                    reply,
                    *final(primitive),
                    ok,
                ),
            exists|h: &mut H, reply: FieldInfoReply|
                *h == *old(host) && *final(h) == *final(host) && #[trigger] call_ensures(
                    H::type_model_get_field_info,
                    (h, self.address(), pipe, path),
                    reply,
                ) && Primitive::<T>::validation_step(
                    *old(primitive),
                    reply,
                    *final(primitive),
                    ok,
                ),
            final(primitive).accessor() == old(primitive).accessor(),
            ok ==> final(primitive).shape().agrees_with(T::required_shape()),
    {
        assert(self.address() == self.object);
        let reply = ask_field_info(host, self.object, pipe, path);
        primitive.record_shape(reply)
    }

    /// What a binding without validation comes to: the host in the state
    /// `before` is asked for an accessor to the field at `path`, which leaves
    /// it in the state `after`, and its answer takes `start` to `end` and
    /// gives `ok` as the second step of a binding does.
    pub open spec fn bound_by<T: PrimitiveTypeTag<T> + Default, H: Host>(
        &self,
        before: H,
        after: H,
        pipe: PipeDescriptor,
        path: Option<Seq<u8>>,
        start: Primitive<T>,
        end: Primitive<T>,
        ok: bool,
    ) -> bool {
        exists|accessor: u32|
            (#[trigger] accessor_step(before, self.address(), pipe, path, accessor, after))
                && Primitive::<T>::binding_step(start, accessor, end, ok)
    }

    /// What a binding with validation comes to: the host in the state
    /// `before` is asked for the shape of the field at `path`, and its answer
    /// takes `start` through the first step of a binding. Where that step
    /// fails the binding has failed and ends there. Where it succeeds the
    /// host, in the state that the first request left it in, is asked for an
    /// accessor, and the second step follows. `after` is the state that the
    /// host is left in.
    pub open spec fn validated_and_bound_by<T: PrimitiveTypeTag<T> + Default, H: Host>(
        &self,
        before: H,
        after: H,
        pipe: PipeDescriptor,
        path: Option<Seq<u8>>,
        start: Primitive<T>,
        end: Primitive<T>,
        ok: bool,
    ) -> bool {
        exists|info: FieldInfoReply, checked: Primitive<T>, valid: bool, then: H|
            {
                &&& #[trigger] field_info_step(before, self.address(), pipe, path, info, then)
                &&& #[trigger] Primitive::<T>::validation_step(start, info, checked, valid)
                &&& if valid {
                    self.bound_by(then, after, pipe, path, checked, end, ok)
                } else {
                    !ok && end == checked && after == then
                }
            }
    }

    /// Binds `primitive` to the field at the dotted `path` of the type of
    /// `pipe`. With `validate_type` the shape of the field is first held
    /// against the scalar type. The answer is `true` where the primitive is
    /// bound now and was not before. A primitive that is bound already, a
    /// field of another shape, and a field that the host cannot resolve each
    /// give `false` and leave the primitive as unbound or bound as it was.
    pub fn assign_primitive<T, H: Host>(
        &self,
        host: &mut H,
        pipe: PipeDescriptor,
        path: &str,
        primitive: &mut Primitive<T>,
        validate_type: bool,
    ) -> (ok: bool) where T: PrimitiveTypeTag<T> + Default
        ensures
            old(primitive).is_bound() ==> !ok && *final(primitive) == *old(primitive),
            old(primitive).is_bound() ==> *final(host) == *old(host),
            !old(primitive).is_bound() && validate_type ==> self.validated_and_bound_by(
                *old(host),
                *final(host),
                pipe,
                spec_get_cstr(Some(path)),
                *old(primitive),
                *final(primitive),
                ok,
            ),
            !old(primitive).is_bound() && !validate_type ==> self.bound_by(
                *old(host),
                *final(host),
                pipe,
                spec_get_cstr(Some(path)),
                *old(primitive),
                *final(primitive),
                ok,
            ),
            !old(primitive).is_bound() && !validate_type ==> exists|
                h: &mut H,
                p: Option<&Vec<u8>>,
                accessor: u32,
            |
                {
                    &&& *h == *old(host) && *final(h) == *final(host)
                    &&& text_of(p) == spec_get_cstr(Some(path))
                    &&& #[trigger] call_ensures(
                        H::type_model_get_accessor,
                        (h, self.address(), pipe, p),
                        accessor,
                    )
                    &&& Primitive::<T>::binding_step(
                        *old(primitive),
                        accessor,
                        *final(primitive),
                        ok,
                    )
                },
            !old(primitive).is_bound() && validate_type ==> exists|
                first: &mut H,
                p: Option<&Vec<u8>>,
                info: FieldInfoReply,
                checked: Primitive<T>,
                valid: bool,
            |
                {
                    &&& *first == *old(host)
                    &&& text_of(p) == spec_get_cstr(Some(path))
                    &&& #[trigger] call_ensures(
                        H::type_model_get_field_info,
                        (first, self.address(), pipe, p),
                        info,
                    )
                    &&& #[trigger] Primitive::<T>::validation_step(
                        *old(primitive),
                        info,
                        checked,
                        valid,
                    )
                    &&& if valid {
                        exists|second: &mut H, accessor: u32|
                            {
                                &&& *second == *final(first) && *final(second) == *final(host)
                                &&& #[trigger] call_ensures(
                                    H::type_model_get_accessor,
                                    (second, self.address(), pipe, p),
                                    accessor,
                                )
                                &&& Primitive::<T>::binding_step(
                                    checked,
                                    accessor,
                                    *final(primitive),
                                    ok,
                                )
                            }
                    } else {
                        !ok && *final(primitive) == checked && *final(first) == *final(host)
                    }
                },
            ok ==> final(primitive).is_bound() && final(primitive).accessor() != Some(NO_ACCESSOR),
            !ok ==> final(primitive).accessor() == old(primitive).accessor(),
            ok && validate_type ==> final(primitive).shape().agrees_with(T::required_shape()),
            !validate_type ==> final(primitive).shape() == old(primitive).shape(),
    {
        if primitive.bound() {
            return false;
        }
        let c_path = get_cstr(Some(path));
        let path_arg = c_path.as_ref();
        assert(text_of(path_arg) == spec_get_cstr(Some(path)));
        assert(self.address() == self.object);
        if validate_type {
            let ghost start = *primitive;
            let info = ask_field_info(host, self.object, pipe, path_arg);
            let valid = primitive.record_shape(info);
            let ghost checked = *primitive;
            let ghost then = *host;
            if !valid {
                assert(self.validated_and_bound_by(
                    *old(host),
                    then,
                    pipe,
                    spec_get_cstr(Some(path)),
                    start,
                    checked,
                    false,
                ));
                return false;
            }
            let accessor = ask_accessor(host, self.object, pipe, path_arg);
            let ok = primitive.bind(accessor);
            assert(self.bound_by(
                then,
                *host,
                pipe,
                spec_get_cstr(Some(path)),
                checked,
                *primitive,
                ok,
            ));
            assert(self.validated_and_bound_by(
                *old(host),
                *host,
                pipe,
                spec_get_cstr(Some(path)),
                start,
                *primitive,
                ok,
            ));
            ok
        } else {
            let accessor = ask_accessor(host, self.object, pipe, path_arg);
            primitive.bind(accessor)
        }
    }
}

/// The fields that a servlet reads, as accessors over the data of one
/// activation. One is made for each activation from the servlet's protocol
/// model and the activation's type instance.
pub trait DataModel<T: ProtocolModel>: Sized {
    /// The accessors for one activation.
    fn new_data_model(model: Rc<T>, type_inst: TypeInstanceObject) -> Self;
}

/// The fields that a servlet wants from the schema: its primitives, and how
/// to bind them.
pub trait ProtocolModel: Sized {
    /// Binds the fields, given the descriptor of each pipe by its name. The
    /// servlet calls this while it is set up. Where a field cannot be bound
    /// the answer is `false`, and the servlet is to fail its own setup.
    fn init_model<H: Host>(
        &mut self,
        host: &mut H,
        pipes: HashMap<String, PipeDescriptor>,
    ) -> bool;

    /// The protocol model of a new servlet instance, all fields unbound.
    fn new_protocol_model(type_model: TypeModelObject) -> Self;
}

/// The protocol model and the data model of a servlet whose pipes are all
/// untyped.
pub type Untyped = ();

impl ProtocolModel for () {
    fn init_model<H: Host>(
        &mut self,
        host: &mut H,
        pipes: HashMap<String, PipeDescriptor>,
    ) -> (ok: bool)
        ensures
            ok,
            *final(host) == *old(host),
    {
        true
    }

    fn new_protocol_model(type_model: TypeModelObject) -> Untyped {
        ()
    }
}

impl DataModel<Untyped> for Untyped {
    fn new_data_model(model: Rc<Untyped>, type_inst: TypeInstanceObject) -> Untyped {
        ()
    }
}

} // verus!
