use vstd::prelude::*;

verus! {

/// Declared type of one method parameter.
#[derive(Clone, Copy, Debug, PartialEq, Eq, Structural)]
pub enum ParamType {
    Address,
    /// An unsigned integer of the given bit width.
    Uint(u32),
    Bool,
    /// A fixed-size byte string of the given length.
    FixedBytes(u32),
    /// A byte string of any length, encoded after the parameter words.
    Bytes,
}

/// One argument value of a call.
#[derive(Clone, Debug)]
pub enum Token {
    Address(Vec<u8>),
    Uint(u128),
    Bool(bool),
    FixedBytes(Vec<u8>),
    Bytes(Vec<u8>),
}

/// Mathematical model of a [`Token`].
pub ghost enum Value {
    Address(Seq<u8>),
    Uint(nat),
    Bool(bool),
    FixedBytes(Seq<u8>),
    Bytes(Seq<u8>),
}

impl View for Token {
    type V = Value;

    open spec fn view(&self) -> Value {
        match self {
            Token::Address(a) => Value::Address(a@),
            Token::Uint(v) => Value::Uint(*v as nat),
            Token::Bool(b) => Value::Bool(*b),
            Token::FixedBytes(b) => Value::FixedBytes(b@),
            Token::Bytes(b) => Value::Bytes(b@),
        }
    }
}

/// Why a call could not be encoded.
#[derive(Clone, Copy, Debug, PartialEq, Eq, Structural)]
pub enum EncodingError {
    /// A parameter type of the descriptor is not a valid ABI type.
    InvalidDescriptor,
    /// The number of arguments differs from the number of parameters.
    ArgumentCount,
    /// The first argument that does not match or fit its parameter.
    InvalidArgument { index: usize },
}

/// A method of a contract: its name and its ordered parameter types.
#[derive(Clone, Debug)]
pub struct MethodDescriptor {
    pub name: Vec<u8>,
    pub inputs: Vec<ParamType>,
}

pub open spec fn param_valid(t: ParamType) -> bool {
    match t {
        ParamType::Uint(bits) => 8 <= bits <= 256 && bits % 8 == 0,
        ParamType::FixedBytes(len) => 1 <= len <= 32,
        _ => true,
    }
}

/// `v` has at most `k` base-256 digits, that is `v < 256^k`.
pub open spec fn fits_bytes(v: nat, k: nat) -> bool
    decreases k,
{
    if k == 0 {
        v == 0
    } else {
        fits_bytes(v / 256, (k - 1) as nat)
    }
}

/// `v` can be represented in an unsigned parameter of `bits` bits.
pub open spec fn fits_uint(v: nat, bits: nat) -> bool {
    bits / 8 >= 16 || fits_bytes(v, bits / 8)
}

/// The argument `a` matches the parameter type `t` and fits its width.
pub open spec fn arg_ok(t: ParamType, a: Value) -> bool {
    match (t, a) {
        (ParamType::Address, Value::Address(b)) => b.len() == 20,
        (ParamType::Uint(bits), Value::Uint(v)) => fits_uint(v, bits as nat),
        (ParamType::Bool, Value::Bool(_)) => true,
        (ParamType::FixedBytes(len), Value::FixedBytes(b)) => b.len() <= len,
        (ParamType::Bytes, Value::Bytes(_)) => true,
        _ => false,
    }
}

pub open spec fn zeros(n: nat) -> Seq<u8> {
    Seq::new(n, |i: int| 0u8)
}

/// The low `n` base-256 digits of `v`, most significant first.
pub open spec fn be_bytes(v: nat, n: nat) -> Seq<u8>
    decreases n,
{
    if n == 0 {
        seq![]
    } else {
        be_bytes(v / 256, (n - 1) as nat).push((v % 256) as u8)
    }
}

/// Zero bytes that pad `n` bytes to a multiple of 32.
pub open spec fn padding(n: nat) -> nat {
    ((32 - n % 32) % 32) as nat
}

/// The 32-byte word that stands for an argument among the parameter words: the value
/// itself, or for a byte string of any length the `offset` of its contents.
pub open spec fn head_of(a: Value, offset: nat) -> Seq<u8> {
    match a {
        Value::Address(b) => zeros(12) + b,
        Value::Uint(v) => zeros(16) + be_bytes(v, 16),
        Value::Bool(b) => zeros(31).push(if b { 1u8 } else { 0u8 }),
        Value::FixedBytes(b) => b + zeros((32 - b.len()) as nat),
        Value::Bytes(_) => zeros(16) + be_bytes(offset, 16),
    }
}

/// What follows the parameter words for an argument: for a byte string of any length,
/// its length as a word, then its bytes padded with zeros to a multiple of 32.
pub open spec fn tail_of(a: Value) -> Seq<u8> {
    match a {
        Value::Bytes(b) => zeros(16) + be_bytes(b.len(), 16) + b + zeros(padding(b.len())),
        _ => seq![],
    }
}

/// The tails of the first `n` arguments, one after another.
pub open spec fn tails_of(args: Seq<Value>, n: nat) -> Seq<u8>
    decreases n,
{
    if n == 0 || n > args.len() {
        seq![]
    } else {
        tails_of(args, (n - 1) as nat) + tail_of(args[n - 1])
    }
}

/// The parameter words of the first `n` arguments; offsets count from the first word.
pub open spec fn heads_of(args: Seq<Value>, n: nat) -> Seq<u8>
    decreases n,
{
    if n == 0 || n > args.len() {
        seq![]
    } else {
        heads_of(args, (n - 1) as nat) + head_of(
            args[n - 1],
            32 * args.len() + tails_of(args, (n - 1) as nat).len(),
        )
    }
}

/// Call data of a method with the given selector, or the error that prevents it.
pub open spec fn call_data(selector: Seq<u8>, types: Seq<ParamType>, args: Seq<Value>) -> Result<
    Seq<u8>,
    EncodingError,
> {
    if exists|i: int| 0 <= i < types.len() && !param_valid(#[trigger] types[i]) {
        Err(EncodingError::InvalidDescriptor)
    } else if types.len() != args.len() {
        Err(EncodingError::ArgumentCount)
    } else if exists|i: int| 0 <= i < types.len() && !arg_ok(#[trigger] types[i], args[i]) {
        let i = choose|i: int|
            0 <= i < types.len() && !arg_ok(#[trigger] types[i], args[i]) && forall|j: int|
                0 <= j < i ==> arg_ok(#[trigger] types[j], args[j]);
        Err(EncodingError::InvalidArgument { index: i as usize })
    } else {
        Ok(selector + heads_of(args, args.len()) + tails_of(args, args.len()))
    }
}

pub open spec fn values_of(args: Seq<Token>) -> Seq<Value> {
    args.map_values(|t: Token| t@)
}


/// Decimal digits of `n` in ASCII, most significant first.
pub open spec fn decimal(n: nat) -> Seq<u8>
    decreases n,
{
    if n < 10 {
        seq![(48 + n) as u8]
    } else {
        decimal(n / 10).push((48 + n % 10) as u8)
    }
}

/// Canonical name of a parameter type, as it stands in a method signature.
pub open spec fn param_name(t: ParamType) -> Seq<u8> {
    match t {
        ParamType::Address => seq![97u8, 100, 100, 114, 101, 115, 115],
        ParamType::Uint(bits) => seq![117u8, 105, 110, 116] + decimal(bits as nat),
        ParamType::Bool => seq![98u8, 111, 111, 108],
        ParamType::FixedBytes(len) => seq![98u8, 121, 116, 101, 115] + decimal(len as nat),
        ParamType::Bytes => seq![98u8, 121, 116, 101, 115],
    }
}

/// Names of the first `n` types, separated by commas.
pub open spec fn type_list(types: Seq<ParamType>, n: nat) -> Seq<u8>
    decreases n,
{
    if n == 0 || n > types.len() {
        seq![]
    } else if n == 1 {
        param_name(types[0])
    } else {
        type_list(types, (n - 1) as nat).push(44u8) + param_name(types[n - 1])
    }
}

/// `name(type1,type2,...)`, the text from which a selector is derived.
pub open spec fn signature_of(name: Seq<u8>, types: Seq<ParamType>) -> Seq<u8> {
    name.push(40u8) + type_list(types, types.len()).push(41u8)
}

/// The Keccak-256 digest of a byte string.
pub uninterp spec fn keccak_of(b: Seq<u8>) -> Seq<u8>;

/// Relies on web3::signing::keccak256: the Keccak-256 digest of the bytes, 32 bytes long.
#[verifier::external_body]
fn keccak256(b: &[u8]) -> (r: [u8; 32])
    ensures
        r@ == keccak_of(b@),
{
    web3::signing::keccak256(b)
}

fn push_decimal(out: &mut Vec<u8>, n: u32)
    ensures
        final(out)@ == old(out)@ + decimal(n as nat),
    decreases n,
{
    if n >= 10 {
        push_decimal(out, n / 10);
    }
    out.push((48 + n % 10) as u8);
    proof {
        assert(final(out)@ =~= old(out)@ + decimal(n as nat));
    }
}

fn push_bytes(out: &mut Vec<u8>, b: &[u8])
    ensures
        final(out)@ == old(out)@ + b@,
{
    let mut i: usize = 0;
    while i < b.len()
        invariant
            i <= b@.len(),
            out@ == old(out)@ + b@.take(i as int),
        decreases b@.len() - i,
    {
        out.push(b[i]);
        i = i + 1;
        assert(out@ =~= old(out)@ + b@.take(i as int));
    }
    assert(b@.take(b@.len() as int) =~= b@);
}

fn push_zeros(out: &mut Vec<u8>, n: usize)
    ensures
        final(out)@ == old(out)@ + zeros(n as nat),
{
    let mut i: usize = 0;
    while i < n
        invariant
            i <= n,
            out@ == old(out)@ + zeros(i as nat),
        decreases n - i,
    {
        out.push(0u8);
        i = i + 1;
        assert(out@ =~= old(out)@ + zeros(i as nat));
    }
}

fn push_param_name(out: &mut Vec<u8>, t: ParamType)
    ensures
        final(out)@ == old(out)@ + param_name(t),
{
    match t {
        ParamType::Address => {
            let w: [u8; 7] = [97, 100, 100, 114, 101, 115, 115];
            push_bytes(out, w.as_slice());
        },
        ParamType::Uint(bits) => {
            let w: [u8; 4] = [117, 105, 110, 116];
            push_bytes(out, w.as_slice());
            push_decimal(out, bits);
        },
        ParamType::Bool => {
            let w: [u8; 4] = [98, 111, 111, 108];
            push_bytes(out, w.as_slice());
        },
        ParamType::FixedBytes(len) => {
            let w: [u8; 5] = [98, 121, 116, 101, 115];
            push_bytes(out, w.as_slice());
            push_decimal(out, len);
        },
        ParamType::Bytes => {
            let w: [u8; 5] = [98, 121, 116, 101, 115];
            push_bytes(out, w.as_slice());
        },
    }
    proof {
        assert(final(out)@ =~= old(out)@ + param_name(t));
    }
}

fn push_be(out: &mut Vec<u8>, v: u128, n: usize)
    ensures
        final(out)@ == old(out)@ + be_bytes(v as nat, n as nat),
    decreases n,
{
    if n > 0 {
        push_be(out, v / 256, n - 1);
        out.push((v % 256) as u8);
        proof {
            assert(final(out)@ =~= old(out)@ + be_bytes(v as nat, n as nat));
        }
    } else {
        proof {
            assert(final(out)@ =~= old(out)@ + be_bytes(v as nat, n as nat));
        }
    }
}

fn check_fits_bytes(v: u128, k: u32) -> (r: bool)
    ensures
        r == fits_bytes(v as nat, k as nat),
    decreases k,
{
    if k == 0 {
        v == 0
    } else {
        check_fits_bytes(v / 256, k - 1)
    }
}

fn check_arg(t: ParamType, a: &Token) -> (r: bool)
    ensures
        r == arg_ok(t, a@),
{
    match (t, a) {
        (ParamType::Address, Token::Address(b)) => b.len() == 20,
        (ParamType::Uint(bits), Token::Uint(v)) => bits / 8 >= 16 || check_fits_bytes(*v, bits / 8),
        (ParamType::Bool, Token::Bool(_)) => true,
        (ParamType::FixedBytes(len), Token::FixedBytes(b)) => b.len() <= len as usize,
        (ParamType::Bytes, Token::Bytes(_)) => true,
        _ => false,
    }
}

fn push_head(out: &mut Vec<u8>, t: ParamType, a: &Token, offset: u128)
    requires
        param_valid(t),
        arg_ok(t, a@),
    ensures
        final(out)@ == old(out)@ + head_of(a@, offset as nat),
{
    match a {
        Token::Address(b) => {
            push_zeros(out, 12);
            push_bytes(out, b.as_slice());
        },
        Token::Uint(v) => {
            push_zeros(out, 16);
            push_be(out, *v, 16);
        },
        Token::Bool(b) => {
            push_zeros(out, 31);
            out.push(if *b { 1u8 } else { 0u8 });
        },
        Token::FixedBytes(b) => {
            push_bytes(out, b.as_slice());
            push_zeros(out, 32 - b.len());
        },
        Token::Bytes(_) => {
            push_zeros(out, 16);
            push_be(out, offset, 16);
        },
    }
    proof {
        assert(final(out)@ =~= old(out)@ + head_of(a@, offset as nat));
    }
}

fn push_tail(out: &mut Vec<u8>, a: &Token)
    ensures
        final(out)@ == old(out)@ + tail_of(a@),
{
    match a {
        Token::Bytes(b) => {
            push_zeros(out, 16);
            push_be(out, b.len() as u128, 16);
            push_bytes(out, b.as_slice());
            push_zeros(out, (32 - b.len() % 32) % 32);
        },
        _ => {},
    }
    proof {
        assert(final(out)@ =~= old(out)@ + tail_of(a@));
    }
}

impl MethodDescriptor {
    /// The method's signature text, `name(type1,type2,...)`.
    pub fn signature(&self) -> (r: Vec<u8>)
        ensures
            r@ == signature_of(self.name@, self.inputs@),
    {
        let mut out: Vec<u8> = Vec::new();
        push_bytes(&mut out, self.name.as_slice());
        out.push(40u8);
        let mut i: usize = 0;
        while i < self.inputs.len()
            invariant
                i <= self.inputs@.len(),
                out@ == self.name@.push(40u8) + type_list(self.inputs@, i as nat),
            decreases self.inputs@.len() - i,
        {
            if i > 0 {
                out.push(44u8);
            }
            push_param_name(&mut out, self.inputs[i]);
            i = i + 1;
            assert(out@ =~= self.name@.push(40u8) + type_list(self.inputs@, i as nat));
        }
        out.push(41u8);
        assert(out@ =~= signature_of(self.name@, self.inputs@));
        out
    }

    /// The method's 4-byte selector: the head of the Keccak-256 digest of its signature.
    pub fn selector(&self) -> (r: [u8; 4])
        ensures
            r@ == keccak_of(signature_of(self.name@, self.inputs@)).take(4),
    {
        let sig = self.signature();
        let h = keccak256(sig.as_slice());
        let r: [u8; 4] = [h[0], h[1], h[2], h[3]];
        assert(r@ =~= keccak_of(signature_of(self.name@, self.inputs@)).take(4));
        r
    }
}

/// Encodes a call of `method` with `args` behind the given selector.
pub fn encode_with_selector(selector: &[u8; 4], method: &MethodDescriptor, args: &Vec<Token>) -> (r:
    Result<Vec<u8>, EncodingError>)
    ensures
        match r {
            Ok(data) => call_data(selector@, method.inputs@, values_of(args@)) == Ok::<
                Seq<u8>,
                EncodingError,
            >(data@),
            Err(e) => call_data(selector@, method.inputs@, values_of(args@)) == Err::<
                Seq<u8>,
                EncodingError,
            >(e),
        },
{
    let ghost vals = values_of(args@);
    let mut i: usize = 0;
    while i < method.inputs.len()
        invariant
            i <= method.inputs@.len(),
            forall|j: int| 0 <= j < i ==> param_valid(#[trigger] method.inputs@[j]),
        decreases method.inputs@.len() - i,
    {
        if !(match method.inputs[i] {
            ParamType::Uint(bits) => 8 <= bits && bits <= 256 && bits % 8 == 0,
            ParamType::FixedBytes(len) => 1 <= len && len <= 32,
            _ => true,
        }) {
            assert(!param_valid(method.inputs@[i as int]));
            return Err(EncodingError::InvalidDescriptor);
        }
        i = i + 1;
    }
    if method.inputs.len() != args.len() {
        return Err(EncodingError::ArgumentCount);
    }
    let mut k: usize = 0;
    while k < method.inputs.len()
        invariant
            k <= method.inputs@.len(),
            method.inputs@.len() == args@.len(),
            vals == values_of(args@),
            forall|j: int| 0 <= j < method.inputs@.len() ==> param_valid(#[trigger] method.inputs@[j]),
            forall|j: int| 0 <= j < k ==> arg_ok(#[trigger] method.inputs@[j], vals[j]),
        decreases method.inputs@.len() - k,
    {
        if !check_arg(method.inputs[k], &args[k]) {
            proof {
                assert(vals[k as int] == args@[k as int]@);
                assert(0 <= k < method.inputs@.len() && !arg_ok(method.inputs@[k as int], vals[k as int]) && forall|j: int|
                    0 <= j < k ==> arg_ok(#[trigger] method.inputs@[j], vals[j]));
                let c = choose|c: int|
                    0 <= c < method.inputs@.len() && !arg_ok(#[trigger] method.inputs@[c], vals[c]) && forall|j: int|
                        0 <= j < c ==> arg_ok(#[trigger] method.inputs@[j], vals[j]);
                assert(0 <= k < method.inputs@.len() && !arg_ok(method.inputs@[k as int], vals[k as int]));
                if c < k {
                    assert(arg_ok(method.inputs@[c], vals[c]));
                }
                if c > k {
                    assert(arg_ok(method.inputs@[k as int], vals[k as int]));
                }
            }
            return Err(EncodingError::InvalidArgument { index: k });
        }
        assert(vals[k as int] == args@[k as int]@);
        k = k + 1;
    }
    let mut out: Vec<u8> = Vec::new();
    push_bytes(&mut out, selector.as_slice());
    let mut tail: Vec<u8> = Vec::new();
    let count = args.len();
    let mut n: usize = 0;
    while n < count
        invariant
            count == args@.len(),
            n <= args@.len(),
            method.inputs@.len() == args@.len(),
            vals == values_of(args@),
            forall|j: int| 0 <= j < method.inputs@.len() ==> param_valid(#[trigger] method.inputs@[j]),
            forall|j: int| 0 <= j < method.inputs@.len() ==> arg_ok(#[trigger] method.inputs@[j], vals[j]),
            out@ == selector@ + heads_of(vals, n as nat),
            tail@ == tails_of(vals, n as nat),
        decreases args@.len() - n,
    {
        assert(vals[n as int] == args@[n as int]@);
        assert(arg_ok(method.inputs@[n as int], vals[n as int]));
        let offset: u128 = 32 * (count as u128) + tail.len() as u128;
        push_head(&mut out, method.inputs[n], &args[n], offset);
        push_tail(&mut tail, &args[n]);
        n = n + 1;
        assert(out@ =~= selector@ + heads_of(vals, n as nat));
        assert(tail@ =~= tails_of(vals, n as nat));
    }
    push_bytes(&mut out, tail.as_slice());
    assert(out@ =~= selector@ + heads_of(vals, vals.len()) + tails_of(vals, vals.len()));
    Ok(out)
}

/// Encodes a call of `method` with `args`: its selector followed by one 32-byte word per argument.
pub fn encode_call(method: &MethodDescriptor, args: &Vec<Token>) -> (r: Result<Vec<u8>, EncodingError>)
    ensures
        match r {
            Ok(data) => call_data(
                keccak_of(signature_of(method.name@, method.inputs@)).take(4),
                method.inputs@,
                values_of(args@),
            ) == Ok::<Seq<u8>, EncodingError>(data@),
            Err(e) => call_data(
                keccak_of(signature_of(method.name@, method.inputs@)).take(4),
                method.inputs@,
                values_of(args@),
            ) == Err::<Seq<u8>, EncodingError>(e),
        },
{
    let sel = method.selector();
    encode_with_selector(&sel, method, args)
}

/// Encoding is deterministic: the same method (name and parameter types) and the same
/// argument values give the same outcome, and on success byte-identical call data, in
/// which the selector is followed by exactly one 32-byte word per argument before the
/// contents of the byte strings of any length.
pub proof fn lemma_encoding_deterministic(
    name1: Seq<u8>,
    types1: Seq<ParamType>,
    args1: Seq<Value>,
    name2: Seq<u8>,
    types2: Seq<ParamType>,
    args2: Seq<Value>,
)
    requires
        name1 == name2,
        types1 == types2,
        args1 == args2,
    ensures
        call_data(keccak_of(signature_of(name1, types1)).take(4), types1, args1) == call_data(
            keccak_of(signature_of(name2, types2)).take(4),
            types2,
            args2,
        ),
        call_data(keccak_of(signature_of(name1, types1)).take(4), types1, args1) is Ok ==> heads_of(
            args1,
            args1.len(),
        ).len() == 32 * args1.len(),
{
    if call_data(keccak_of(signature_of(name1, types1)).take(4), types1, args1) is Ok {
        lemma_heads_len(types1, args1, args1.len());
    }
}

proof fn lemma_heads_len(types: Seq<ParamType>, args: Seq<Value>, n: nat)
    requires
        n <= args.len(),
        types.len() == args.len(),
        forall|i: int| 0 <= i < types.len() ==> param_valid(#[trigger] types[i]),
        forall|i: int| 0 <= i < types.len() ==> arg_ok(#[trigger] types[i], args[i]),
    ensures
        heads_of(args, n).len() == 32 * n,
    decreases n,
{
    if n > 0 {
        lemma_heads_len(types, args, (n - 1) as nat);
        assert(arg_ok(types[n - 1], args[n - 1]));
        assert(param_valid(types[n - 1]));
        let a = args[n - 1];
        let off = 32 * args.len() + tails_of(args, (n - 1) as nat).len();
        match a {
            Value::Uint(v) => lemma_be_len(v, 16),
            Value::Bytes(_) => lemma_be_len(off, 16),
            _ => {},
        }
    }
}

proof fn lemma_be_len(v: nat, n: nat)
    ensures
        be_bytes(v, n).len() == n,
    decreases n,
{
    if n > 0 {
        lemma_be_len(v / 256, (n - 1) as nat);
    }
}

} // verus!
