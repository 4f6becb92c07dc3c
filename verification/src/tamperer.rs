//! Code patches: a `Tamperer` remembers the bytes that a patch overwrote at
//! an address, and the arithmetic of near jump (`E9`/`E8` rel32) operands
//! that the patches redirect.

use vstd::prelude::*;

verus! {

/// The signed 32-bit value of the bit pattern `x` (0 to 2^32 - 1).
pub open spec fn signed32(x: int) -> int {
    if x < 0x8000_0000 {
        x
    } else {
        x - 0x1_0000_0000
    }
}

/// The 32-bit pattern of `x`, that is `x` modulo 2^32.
pub open spec fn wrap32(x: int) -> int {
    x % 0x1_0000_0000
}

/// The four little-endian bytes of the 32-bit pattern `u`.
pub open spec fn le_bytes32(u: int) -> Seq<u8> {
    seq![
        (u % 256) as u8,
        ((u / 256) % 256) as u8,
        ((u / 0x1_0000) % 256) as u8,
        ((u / 0x100_0000) % 256) as u8,
    ]
}

/// The 32-bit pattern of four little-endian bytes.
pub open spec fn le_value32(b: Seq<u8>) -> int {
    b[0] + 256 * b[1] + 0x1_0000 * b[2] + 0x100_0000 * b[3]
}

/// The operand (as a 32-bit pattern) of a near jump placed at `addr` that
/// lands on `target`: the distance from the end of the five-byte
/// instruction, modulo 2^32.
pub open spec fn near_jmp_operand_bits(addr: int, target: int) -> int {
    wrap32(target - (addr + 5))
}

/// The five bytes written over a near jump at `addr` so that it lands on
/// `target`: the kept opcode, then the little-endian operand.
pub open spec fn near_jmp_patch(operator: u8, addr: int, target: int) -> Seq<u8> {
    seq![operator] + le_bytes32(near_jmp_operand_bits(addr, target))
}

/// The address that a near jump at `addr` with the signed operand `operand`
/// lands on, before it is reduced to 32 bits.
pub open spec fn jmp_sum(addr: int, operand: int) -> int {
    operand + (signed32(addr) + 5)
}

/// The signed operand stored in bytes 1 to 4 of a near jump instruction.
pub open spec fn stored_operand(ops: Seq<u8>) -> int {
    signed32(le_value32(ops.subrange(1, 5)))
}

/// Whether the landing address of a near jump at `addr` with operand
/// `operand` can be computed in signed 32-bit arithmetic without overflow.
pub open spec fn jmp_sum_fits(addr: int, operand: int) -> bool {
    &&& signed32(addr) + 5 <= i32::MAX
    &&& i32::MIN <= jmp_sum(addr, operand) <= i32::MAX
}

proof fn lemma_le_round_trip(u: int)
    requires
        0 <= u < 0x1_0000_0000,
    ensures
        le_value32(le_bytes32(u)) == u,
        le_bytes32(u).len() == 4,
{
    let b = le_bytes32(u);
    assert(b[0] == u % 256);
    assert(b[1] == (u / 256) % 256);
    assert(b[2] == (u / 0x1_0000) % 256);
    assert(b[3] == (u / 0x100_0000) % 256);
    assert(u == u % 256 + 256 * ((u / 256) % 256) + 0x1_0000 * ((u / 0x1_0000) % 256) + 0x100_0000 * (
    (u / 0x100_0000) % 256)) by (nonlinear_arith)
        requires
            0 <= u < 0x1_0000_0000,
    ;
}

/// The signed operand of a near jump placed at `addr` that lands on
/// `target`.
pub fn near_jmp_operand(addr: u32, target: u32) -> (operand: i32)
    requires
        addr <= u32::MAX - 5,
    ensures
        operand == signed32(near_jmp_operand_bits(addr as int, target as int)),
{
    let end: u64 = addr as u64 + 5;
    let bits: u64 = if target as u64 >= end {
        target as u64 - end
    } else {
        target as u64 + 0x1_0000_0000 - end
    };
    assert(bits == near_jmp_operand_bits(addr as int, target as int));
    if bits >= 0x8000_0000 {
        (bits as i64 - 0x1_0000_0000) as i32
    } else {
        bits as i32
    }
}

/// The address that a near jump at `addr` with the signed operand `operand`
/// lands on.
pub fn near_jmp_destination(addr: u32, operand: i32) -> (dest: u32)
    requires
        jmp_sum_fits(addr as int, operand as int),
    ensures
        dest == wrap32(jmp_sum(addr as int, operand as int)),
{
    let base: i32 = if addr >= 0x8000_0000 {
        (addr as i64 - 0x1_0000_0000) as i32
    } else {
        addr as i32
    };
    let base = base + 5;
    let sum = operand + base;
    if sum < 0 {
        (sum as i64 + 0x1_0000_0000) as u32
    } else {
        sum as u32
    }
}

/// The four little-endian bytes of `value`.
pub fn i32_to_le_bytes(value: i32) -> (bytes: Vec<u8>)
    ensures
        bytes@ == le_bytes32(wrap32(value as int)),
        bytes@.len() == 4,
{
    let u: u64 = if value < 0 {
        (value as i64 + 0x1_0000_0000) as u64
    } else {
        value as u64
    };
    assert(u == wrap32(value as int));
    let bytes = vec![
        (u % 256) as u8,
        ((u / 256) % 256) as u8,
        ((u / 0x1_0000) % 256) as u8,
        ((u / 0x100_0000) % 256) as u8,
    ];
    assert(bytes@ =~= le_bytes32(wrap32(value as int)));
    bytes
}

/// The signed value of four little-endian bytes.
pub fn i32_from_le_bytes(b0: u8, b1: u8, b2: u8, b3: u8) -> (value: i32)
    ensures
        value == signed32(le_value32(seq![b0, b1, b2, b3])),
{
    let u: u64 = b0 as u64 + 256 * (b1 as u64) + 0x1_0000 * (b2 as u64) + 0x100_0000 * (b3 as u64);
    if u >= 0x8000_0000 {
        (u as i64 - 0x1_0000_0000) as i32
    } else {
        u as i32
    }
}

/// The five bytes that redirect the near jump at `addr` to `target`, keeping
/// its opcode `operator`.
pub fn near_jmp_operator_bytes(operator: u8, addr: u32, target: u32) -> (bytes: Vec<u8>)
    requires
        addr <= u32::MAX - 5,
    ensures
        bytes@ == near_jmp_patch(operator, addr as int, target as int),
        bytes@.len() == 5,
        bytes@[0] == operator,
        jmp_sum_fits(addr as int, stored_operand(bytes@)) ==> wrap32(
            jmp_sum(addr as int, stored_operand(bytes@)),
        ) == target,
{
    proof {
        lemma_near_jmp_patch_keeps_opcode(operator, addr as int, target as int);
        if jmp_sum_fits(addr as int, stored_operand(near_jmp_patch(operator, addr as int, target as int))) {
            lemma_near_jmp_round_trip(operator, addr, target);
        }
    }
    let operand = near_jmp_operand(addr, target);
    let mut operand_bytes = i32_to_le_bytes(operand);
    proof {
        let bits = near_jmp_operand_bits(addr as int, target as int);
        assert(wrap32(signed32(bits)) == bits);
    }
    let mut bytes: Vec<u8> = Vec::new();
    bytes.push(operator);
    bytes.append(&mut operand_bytes);
    assert(bytes@ =~= near_jmp_patch(operator, addr as int, target as int));
    bytes
}

/// A patch applied at `address`, remembering the bytes that it overwrote so
/// that they can be written back.
pub struct Tamperer {
    address: u32,
    original_operators: Vec<u8>,
}

impl View for Tamperer {
    type V = (u32, Seq<u8>);

    closed spec fn view(&self) -> (u32, Seq<u8>) {
        (self.address, self.original_operators@)
    }
}

impl Tamperer {
    /// The record of a patch at `address` that overwrote
    /// `original_operators`.
    pub fn new(address: u32, original_operators: Vec<u8>) -> (t: Tamperer)
        ensures
            t@ == (address, original_operators@),
    {
        Tamperer { address, original_operators }
    }

    /// The patched address.
    pub fn address(&self) -> (a: u32)
        ensures
            a == self@.0,
    {
        self.address
    }

    /// The bytes that the patch overwrote.
    pub fn original_operators(&self) -> (ops: &Vec<u8>)
        ensures
            ops@ == self@.1,
    {
        &self.original_operators
    }

    /// Where the near jump that the patch overwrote landed: the patch must
    /// have overwritten a whole five-byte near jump, and the landing address
    /// must be computable in signed 32-bit arithmetic.
    pub fn jmp_target_addr(&self) -> (target: u32)
        requires
            self@.1.len() >= 5,
            jmp_sum_fits(self@.0 as int, stored_operand(self@.1)),
        ensures
            target == wrap32(jmp_sum(self@.0 as int, stored_operand(self@.1))),
    {
        let ops = &self.original_operators;
        let reference = i32_from_le_bytes(ops[1], ops[2], ops[3], ops[4]);
        assert(seq![ops@[1], ops@[2], ops@[3], ops@[4]] =~= ops@.subrange(1, 5));
        near_jmp_destination(self.address, reference)
    }

    /// Where the near jump that the patch overwrote landed, or `None` when
    /// the patch overwrote fewer than five bytes or the landing address
    /// cannot be computed in signed 32-bit arithmetic (where
    /// [`Tamperer::jmp_target_addr`] would fail).
    pub fn checked_jmp_target_addr(&self) -> (target: Option<u32>)
        ensures
            target is Some <==> (self@.1.len() >= 5 && jmp_sum_fits(
                self@.0 as int,
                stored_operand(self@.1),
            )),
            target matches Some(t) ==> t == wrap32(jmp_sum(self@.0 as int, stored_operand(self@.1))),
    {
        let ops = &self.original_operators;
        if ops.len() < 5 {
            return None;
        }
        let reference = i32_from_le_bytes(ops[1], ops[2], ops[3], ops[4]);
        assert(seq![ops@[1], ops@[2], ops@[3], ops@[4]] =~= ops@.subrange(1, 5));
        let base: i64 = if self.address >= 0x8000_0000 {
            self.address as i64 - 0x1_0000_0000
        } else {
            self.address as i64
        } + 5;
        let sum: i64 = reference as i64 + base;
        if base <= i32::MAX as i64 && i32::MIN as i64 <= sum && sum <= i32::MAX as i64 {
            Some(self.jmp_target_addr())
        } else {
            None
        }
    }
}

/// A redirection is five bytes that keep the opcode it is given: a near
/// call stays a call and a near jump stays a jump, whatever the address and
/// target.
pub proof fn lemma_near_jmp_patch_keeps_opcode(operator: u8, addr: int, target: int)
    ensures
        near_jmp_patch(operator, addr, target).len() == 5,
        near_jmp_patch(operator, addr, target)[0] == operator,
{
}

/// Redirecting a near jump and reading the landing address back gives the
/// target: the bytes written by a patch at `addr` to `target` hold the
/// operand from which the landing address `target` is computed again.
pub proof fn lemma_near_jmp_round_trip(operator: u8, addr: u32, target: u32)
    requires
        addr <= u32::MAX - 5,
        jmp_sum_fits(addr as int, stored_operand(near_jmp_patch(operator, addr as int, target as int))),
    ensures
        near_jmp_patch(operator, addr as int, target as int).len() == 5,
        wrap32(jmp_sum(addr as int, stored_operand(near_jmp_patch(operator, addr as int, target as int))))
            == target,
{
    let bits = near_jmp_operand_bits(addr as int, target as int);
    let patch = near_jmp_patch(operator, addr as int, target as int);
    lemma_le_round_trip(bits);
    assert(patch.subrange(1, 5) =~= le_bytes32(bits));
    let operand = signed32(bits);
    let sum = jmp_sum(addr as int, operand);
    assert(wrap32(sum) == target) by (nonlinear_arith)
        requires
            bits == (target - (addr + 5)) % 0x1_0000_0000,
            operand == if bits < 0x8000_0000 { bits } else { bits - 0x1_0000_0000 },
            sum == operand + ((if addr < 0x8000_0000 { addr as int } else { addr - 0x1_0000_0000 }) + 5),
            0 <= addr < 0x1_0000_0000,
            0 <= target < 0x1_0000_0000,
    ;
}

} // verus!
