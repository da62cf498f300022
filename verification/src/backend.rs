//! The backend initialization protocol.
//!
//! Initialization is a linear protocol: obtain an offscreen surface, find
//! the driver module, resolve its factory symbol, create the backend's
//! native objects, and read the dispatch-table slots of each object in a
//! fixed order. The decisions of that protocol are verified here as a state
//! machine: [`InitSession::next_action`] tells the embedding program which
//! operating-system call to perform, and [`InitSession::step`] consumes the
//! call's outcome, handed back as plain values. The first failure moves the
//! machine into a terminal `Failed` state; no step retries.

pub mod d3d11;
pub mod d3d9;

use crate::error::{ErrorKind, KieroError};
use crate::RenderType;
use vstd::prelude::*;
use vstd::string::StrSliceExecFns;
use vstd::string::StringSliceAdditionalSpecFns;

verus! {

/// Number of dispatch slots of a D3D9 device object.
pub const D3D9_DEVICE_SLOTS: usize = 119;

/// Number of dispatch slots of a DXGI swap-chain object.
pub const D3D11_SWAP_CHAIN_SLOTS: usize = 18;

/// Number of dispatch slots of a D3D11 device object.
pub const D3D11_DEVICE_SLOTS: usize = 43;

/// Number of dispatch slots of a D3D11 device-context object.
pub const D3D11_CONTEXT_SLOTS: usize = 144;

/// The backends whose creation sequence this library implements.
pub open spec fn supported_backend(rt: RenderType) -> bool {
    rt is D3D9 || rt is D3D11
}

/// The fixed total number of addresses a successful initialization yields.
pub open spec fn total_slots(rt: RenderType) -> nat {
    match rt {
        RenderType::D3D9 => D3D9_DEVICE_SLOTS as nat,
        RenderType::D3D11 => (D3D11_SWAP_CHAIN_SLOTS + D3D11_DEVICE_SLOTS
            + D3D11_CONTEXT_SLOTS) as nat,
        _ => 0,
    }
}

/// The well-known file name of each backend's driver module.
pub open spec fn spec_module_name(rt: RenderType) -> Seq<char> {
    match rt {
        RenderType::D3D9 => "d3d9.dll"@,
        RenderType::D3D11 => "d3d11.dll"@,
        RenderType::D3D12 => "d3d12.dll"@,
        RenderType::OpenGL => "opengl32.dll"@,
        RenderType::Vulkan => "vulkan-1.dll"@,
    }
}

/// The well-known factory symbol exported by each backend's driver module.
pub open spec fn spec_symbol_name(rt: RenderType) -> Seq<char> {
    match rt {
        RenderType::D3D9 => "Direct3DCreate9"@,
        RenderType::D3D11 => "D3D11CreateDeviceAndSwapChain"@,
        RenderType::D3D12 => "D3D12CreateDevice"@,
        RenderType::OpenGL => "wglGetProcAddress"@,
        RenderType::Vulkan => "vkCreateInstance"@,
    }
}

/// The driver module to look up for the given backend.
pub fn module_name(rt: RenderType) -> (r: String)
    ensures
        r@ == spec_module_name(rt),
{
    match rt {
        RenderType::D3D9 => "d3d9.dll".to_owned(),
        RenderType::D3D11 => "d3d11.dll".to_owned(),
        RenderType::D3D12 => "d3d12.dll".to_owned(),
        RenderType::OpenGL => "opengl32.dll".to_owned(),
        RenderType::Vulkan => "vulkan-1.dll".to_owned(),
    }
}

/// The factory symbol to resolve for the given backend.
pub fn symbol_name(rt: RenderType) -> (r: String)
    ensures
        r@ == spec_symbol_name(rt),
{
    match rt {
        RenderType::D3D9 => "Direct3DCreate9".to_owned(),
        RenderType::D3D11 => "D3D11CreateDeviceAndSwapChain".to_owned(),
        RenderType::D3D12 => "D3D12CreateDevice".to_owned(),
        RenderType::OpenGL => "wglGetProcAddress".to_owned(),
        RenderType::Vulkan => "vkCreateInstance".to_owned(),
    }
}

/// The UTF-16 code units of one character: the value itself below `0x10000`,
/// a surrogate pair above.
pub open spec fn utf16_units(c: char) -> Seq<u16> {
    let u = c as u32;
    if u < 0x10000 {
        seq![u as u16]
    } else {
        seq![
            (0xD800 + (u - 0x10000) / 0x400) as u16,
            (0xDC00 + (u - 0x10000) % 0x400) as u16,
        ]
    }
}

/// The UTF-16 encoding of a character sequence.
pub open spec fn utf16_encode(s: Seq<char>) -> Seq<u16>
    decreases s.len(),
{
    if s.len() == 0 {
        Seq::empty()
    } else {
        utf16_units(s[0]) + utf16_encode(s.skip(1))
    }
}

proof fn lemma_utf16_encode_push(t: Seq<char>, c: char)
    ensures
        utf16_encode(t.push(c)) == utf16_encode(t) + utf16_units(c),
    decreases t.len(),
{
    if t.len() == 0 {
        assert(t.push(c).skip(1) =~= t);
        assert(t.push(c)[0] == c);
        assert(utf16_encode(t.push(c)) =~= utf16_encode(t) + utf16_units(c));
    } else {
        lemma_utf16_encode_push(t.skip(1), c);
        assert(t.push(c).skip(1) =~= t.skip(1).push(c));
        assert(t.push(c)[0] == t[0]);
        assert(utf16_encode(t.push(c)) == utf16_units(t[0]) + utf16_encode(t.skip(1).push(c)));
        assert(utf16_encode(t) == utf16_units(t[0]) + utf16_encode(t.skip(1)));
        assert(utf16_encode(t.push(c)) =~= utf16_encode(t) + utf16_units(c));
    }
}

/// The null-terminated UTF-16 form of a string, as the Win32 wide-string
/// calls expect it.
pub fn win32_wide_string(s: &str) -> (r: Vec<u16>)
    ensures
        r@ == utf16_encode(s@) + seq![0u16],
{
    let n = s.unicode_len();
    let mut out: Vec<u16> = Vec::new();
    let mut i: usize = 0;
    while i < n
        invariant
            i <= n,
            n == s@.len(),
            out@ == utf16_encode(s@.take(i as int)),
        decreases n - i,
    {
        let c = s.get_char(i);
        proof {
            vstd::utf8::char_is_scalar(c);
        }
        let u = c as u32;
        if u < 0x10000 {
            out.push(u as u16);
        } else {
            let v = u - 0x10000;
            out.push((0xD800 + v / 0x400) as u16);
            out.push((0xDC00 + v % 0x400) as u16);
        }
        proof {
            lemma_utf16_encode_push(s@.take(i as int), c);
            assert(s@.take(i as int).push(c) =~= s@.take(i + 1));
        }
        i += 1;
    }
    out.push(0);
    proof {
        assert(s@.take(n as int) =~= s@);
        assert(out@ =~= utf16_encode(s@) + seq![0u16]);
    }
    out
}

/// The null-terminated byte form of a string, as the Win32 ANSI calls
/// expect it.
pub fn win32_ansi_string(s: &str) -> (r: Vec<u8>)
    ensures
        r@ == s.spec_bytes() + seq![0u8],
{
    let mut out = s.as_bytes_vec();
    out.push(0);
    proof {
        assert(out@ =~= s.spec_bytes() + seq![0u8]);
    }
    out
}

/// One planned dispatch-table read: the native object to read from and the
/// interface-defined number of slots its table holds.
#[derive(Clone, Copy, Debug)]
pub struct PlannedRead {
    pub object: usize,
    pub count: usize,
}

/// The states of the initialization protocol, in the order they are passed:
/// the `Await*` states each wait for the outcome of one operating-system
/// call, `Extracting` walks the created objects' dispatch tables, and
/// `Done` / `Failed` are terminal.
#[derive(Debug)]
pub enum InitState {
    AwaitSurface,
    AwaitModule { hwnd: usize },
    AwaitSymbol { hwnd: usize, module: usize },
    AwaitFactory { hwnd: usize, symbol: usize },
    AwaitDevice { hwnd: usize, factory: usize },
    AwaitCreation { hwnd: usize, symbol: usize },
    Extracting { pending: Vec<PlannedRead>, table: Vec<usize> },
    Done { table: Vec<usize> },
    Failed { error: KieroError },
}

/// The outcome of one operating-system call, as plain values. A null handle
/// or address is passed as `0`.
#[derive(Debug)]
pub enum InitEvent {
    /// Outcome of creating the offscreen surface; `os_error` is the
    /// operating system's error code, read when `hwnd` is null.
    SurfaceCreated { hwnd: usize, os_error: u32 },
    /// Outcome of looking up the driver module by name.
    ModuleLookup { handle: usize },
    /// Outcome of resolving the factory symbol from the module.
    SymbolLookup { address: usize },
    /// Outcome of invoking the D3D9 factory: the top-level interface.
    FactoryCreated { interface_ptr: usize },
    /// Outcome of the D3D9 device-creation call.
    DeviceCreated { device: usize, result_code: i32 },
    /// Outcome of the combined D3D11 device-and-swap-chain creation call.
    DeviceAndSwapChainCreated {
        swap_chain: usize,
        device: usize,
        context: usize,
        result_code: i32,
    },
    /// The pointer-sized values read from the current object's dispatch
    /// table, in table order.
    SlotsRead { values: Vec<usize> },
}

/// The operating-system call the embedding program must perform next.
#[derive(Debug)]
pub enum InitAction {
    /// Create the small, invisible, top-level surface.
    CreateSurface,
    /// Look up the already-loaded module of this name.
    FindModule { name: String },
    /// Resolve the named exported symbol from the module.
    ResolveSymbol { module: usize, name: String },
    /// Invoke the D3D9 factory at `symbol` with the required ABI version.
    InvokeFactory { symbol: usize, sdk_version: u32 },
    /// Ask the D3D9 factory for a disposable device bound to the surface.
    CreateDevice { factory: usize, hwnd: usize },
    /// Invoke the combined D3D11 factory at `symbol` for the surface.
    CreateDeviceAndSwapChain { symbol: usize, hwnd: usize, sdk_version: u32 },
    /// Read `count` consecutive pointer-sized values from the dispatch
    /// table of `object`.
    ReadSlots { object: usize, count: usize },
    /// The protocol is over; ask for the result.
    Finished,
}

/// Every address of the sequence is non-null.
pub open spec fn all_nonnull(s: Seq<usize>) -> bool {
    forall|i: int| 0 <= i < s.len() ==> s[i] != 0
}

/// The slot total of a sequence of planned reads.
pub open spec fn sum_counts(p: Seq<PlannedRead>) -> nat
    decreases p.len(),
{
    if p.len() == 0 {
        0
    } else {
        p[0].count as nat + sum_counts(p.skip(1))
    }
}

/// Well-formedness of a protocol state for the chosen backend: states of a
/// backend-specific path belong to that backend, the extraction plan always
/// adds up to the backend's fixed slot total, and what has been extracted is
/// non-null.
pub open spec fn state_wf(rt: RenderType, s: InitState) -> bool {
    match s {
        InitState::AwaitSurface => supported_backend(rt),
        InitState::AwaitModule { .. } => supported_backend(rt),
        InitState::AwaitSymbol { .. } => supported_backend(rt),
        InitState::AwaitFactory { .. } => rt is D3D9,
        InitState::AwaitDevice { .. } => rt is D3D9,
        InitState::AwaitCreation { .. } => rt is D3D11,
        InitState::Extracting { pending, table } => {
            &&& pending@.len() > 0
            &&& forall|i: int|
                0 <= i < pending@.len() ==> (#[trigger] pending@[i]).count > 0
                    && pending@[i].object != 0
            &&& table@.len() + sum_counts(pending@) == total_slots(rt)
            &&& all_nonnull(table@)
        },
        InitState::Done { table } => table@.len() == total_slots(rt) && all_nonnull(table@),
        InitState::Failed { .. } => true,
    }
}

/// The state is terminal: the protocol neither expects an event nor issues
/// an action.
pub open spec fn terminal(s: InitState) -> bool {
    s is Done || s is Failed
}

/// `post` reports a protocol fault: the embedding program handed back an
/// event that the current state does not expect.
pub open spec fn protocol_fault(post: InitState) -> bool {
    failed_unknown(post, "unexpected event"@)
}

/// `post` is a failure of kind `Unknown` with this message.
pub open spec fn failed_unknown(post: InitState, msg: Seq<char>) -> bool {
    post matches InitState::Failed { error } && error.kind is Unknown && error.message@ == msg
}

/// `post` is a failure of kind `NotSupported` with this message.
pub open spec fn failed_not_supported(post: InitState, msg: Seq<char>) -> bool {
    post matches InitState::Failed { error } && error.kind is NotSupported && error.message@
        == msg
}

/// `post` is a failure of kind `IoError` carrying this code.
pub open spec fn failed_io(post: InitState, code: u32, msg: Seq<char>) -> bool {
    post matches InitState::Failed { error } && error.kind matches ErrorKind::IoError(c) && c
        == code && error.message@ == msg
}

/// `post` is a failure of kind `ModuleNotFound` carrying this module name.
pub open spec fn failed_module_not_found(post: InitState, name: Seq<char>, msg: Seq<char>) -> bool {
    post matches InitState::Failed { error } && error.kind matches ErrorKind::ModuleNotFound(n)
        && n@ == name && error.message@ == msg
}

/// The transition relation of the protocol: from state `pre`, the outcome
/// `event` of the requested call leads to state `post`. Every arm pins
/// `post` down to the values it carries. A null handle fails the step that
/// produced it; terminal states absorb every event unchanged.
pub open spec fn transition(
    rt: RenderType,
    pre: InitState,
    event: InitEvent,
    post: InitState,
) -> bool {
    match pre {
        InitState::AwaitSurface => match event {
            InitEvent::SurfaceCreated { hwnd, os_error } => {
                if hwnd == 0 {
                    failed_io(post, os_error, "failed to create the offscreen surface"@)
                } else {
                    post matches InitState::AwaitModule { hwnd: h } && h == hwnd
                }
            },
            _ => protocol_fault(post),
        },
        InitState::AwaitModule { hwnd } => match event {
            InitEvent::ModuleLookup { handle } => {
                if handle == 0 {
                    failed_module_not_found(
                        post,
                        spec_module_name(rt),
                        "driver module is not loaded"@,
                    )
                } else {
                    post matches InitState::AwaitSymbol { hwnd: h, module } && h == hwnd
                        && module == handle
                }
            },
            _ => protocol_fault(post),
        },
        InitState::AwaitSymbol { hwnd, module } => match event {
            InitEvent::SymbolLookup { address } => {
                if address == 0 {
                    failed_not_supported(post, "factory symbol not found"@)
                } else {
                    match rt {
                        RenderType::D3D9 => post matches InitState::AwaitFactory {
                            hwnd: h,
                            symbol,
                        } && h == hwnd && symbol == address,
                        RenderType::D3D11 => post matches InitState::AwaitCreation {
                            hwnd: h,
                            symbol,
                        } && h == hwnd && symbol == address,
                        _ => protocol_fault(post),
                    }
                }
            },
            _ => protocol_fault(post),
        },
        InitState::AwaitFactory { hwnd, symbol } => match event {
            InitEvent::FactoryCreated { interface_ptr } => {
                if interface_ptr == 0 {
                    failed_not_supported(post, "factory returned a null interface"@)
                } else {
                    post matches InitState::AwaitDevice { hwnd: h, factory } && h == hwnd
                        && factory == interface_ptr
                }
            },
            _ => protocol_fault(post),
        },
        InitState::AwaitDevice { .. } => match event {
            InitEvent::DeviceCreated { device, result_code } => {
                if device == 0 || result_code < 0 {
                    failed_not_supported(post, "device creation failed"@)
                } else {
                    post matches InitState::Extracting { pending, table } && pending@ == seq![
                        PlannedRead { object: device, count: D3D9_DEVICE_SLOTS },
                    ] && table@ == Seq::<usize>::empty()
                }
            },
            _ => protocol_fault(post),
        },
        InitState::AwaitCreation { .. } => match event {
            InitEvent::DeviceAndSwapChainCreated { swap_chain, device, context, result_code } => {
                if swap_chain == 0 || device == 0 || context == 0 {
                    failed_not_supported(post, "device and swap-chain creation failed"@)
                } else {
                    post matches InitState::Extracting { pending, table } && pending@ == seq![
                        PlannedRead { object: swap_chain, count: D3D11_SWAP_CHAIN_SLOTS },
                        PlannedRead { object: device, count: D3D11_DEVICE_SLOTS },
                        PlannedRead { object: context, count: D3D11_CONTEXT_SLOTS },
                    ] && table@ == Seq::<usize>::empty()
                }
            },
            _ => protocol_fault(post),
        },
        InitState::Extracting { pending, table } => match event {
            InitEvent::SlotsRead { values } => {
                if pending@.len() == 0 {
                    protocol_fault(post)
                } else if values@.len() != pending@[0].count {
                    failed_unknown(post, "slot read of unexpected length"@)
                } else if !all_nonnull(values@) {
                    failed_unknown(post, "null dispatch slot"@)
                } else if pending@.len() == 1 {
                    post matches InitState::Done { table: t } && t@ == table@ + values@
                } else {
                    post matches InitState::Extracting { pending: p, table: t } && p@
                        == pending@.skip(1) && t@ == table@ + values@
                }
            },
            _ => protocol_fault(post),
        },
        InitState::Done { .. } => post == pre,
        InitState::Failed { .. } => post == pre,
    }
}

/// The action owed in each state: which operating-system call the embedding
/// program must perform before the next step.
pub open spec fn action_for(rt: RenderType, s: InitState, a: InitAction) -> bool {
    match s {
        InitState::AwaitSurface => a is CreateSurface,
        InitState::AwaitModule { .. } => a matches InitAction::FindModule { name } && name@
            == spec_module_name(rt),
        InitState::AwaitSymbol { module, .. } => a matches InitAction::ResolveSymbol {
            module: m,
            name,
        } && m == module && name@ == spec_symbol_name(rt),
        InitState::AwaitFactory { symbol, .. } => a matches InitAction::InvokeFactory {
            symbol: sy,
            sdk_version,
        } && sy == symbol && sdk_version == d3d9::D3D9_SDK_VERSION,
        InitState::AwaitDevice { hwnd, factory } => a matches InitAction::CreateDevice {
            factory: f,
            hwnd: h,
        } && f == factory && h == hwnd,
        InitState::AwaitCreation { hwnd, symbol } => a
            matches InitAction::CreateDeviceAndSwapChain { symbol: sy, hwnd: h, sdk_version }
            && sy == symbol && h == hwnd && sdk_version == d3d11::D3D11_SDK_VERSION,
        InitState::Extracting { pending, .. } => pending@.len() > 0 && (a
            matches InitAction::ReadSlots { object, count } && object == pending@[0].object
            && count == pending@[0].count),
        InitState::Done { .. } => a is Finished,
        InitState::Failed { .. } => a is Finished,
    }
}

proof fn lemma_sum_unfold(p: Seq<PlannedRead>)
    requires
        p.len() > 0,
    ensures
        sum_counts(p) == p[0].count + sum_counts(p.skip(1)),
{
}

proof fn lemma_sum_empty(p: Seq<PlannedRead>)
    requires
        p.len() == 0,
    ensures
        sum_counts(p) == 0,
{
}

proof fn lemma_nonnull_concat(a: Seq<usize>, b: Seq<usize>)
    requires
        all_nonnull(a),
        all_nonnull(b),
    ensures
        all_nonnull(a + b),
{
    assert forall|i: int| 0 <= i < (a + b).len() implies (a + b)[i] != 0 by {
        if i < a.len() {
            assert((a + b)[i] == a[i]);
        } else {
            assert((a + b)[i] == b[i - a.len()]);
        }
    }
}

/// Well-formedness is an invariant of the protocol: every step taken from a
/// well-formed state lands in a well-formed state.
pub proof fn lemma_transition_preserves_wf(
    rt: RenderType,
    pre: InitState,
    event: InitEvent,
    post: InitState,
)
    requires
        state_wf(rt, pre),
        transition(rt, pre, event, post),
    ensures
        state_wf(rt, post),
{
    match pre {
        InitState::AwaitDevice { .. } => {
            if let InitEvent::DeviceCreated { device, result_code } = event {
                if !(device == 0 || result_code < 0) {
                    let p = seq![PlannedRead { object: device, count: D3D9_DEVICE_SLOTS }];
                    lemma_sum_unfold(p);
                    lemma_sum_empty(p.skip(1));
                }
            }
        },
        InitState::AwaitCreation { .. } => {
            if let InitEvent::DeviceAndSwapChainCreated {
                swap_chain,
                device,
                context,
                result_code,
            } = event {
                if !(swap_chain == 0 || device == 0 || context == 0) {
                    let p = seq![
                        PlannedRead { object: swap_chain, count: D3D11_SWAP_CHAIN_SLOTS },
                        PlannedRead { object: device, count: D3D11_DEVICE_SLOTS },
                        PlannedRead { object: context, count: D3D11_CONTEXT_SLOTS },
                    ];
                    lemma_sum_unfold(p);
                    lemma_sum_unfold(p.skip(1));
                    lemma_sum_unfold(p.skip(1).skip(1));
                    lemma_sum_empty(p.skip(1).skip(1).skip(1));
                }
            }
        },
        InitState::Extracting { pending, table } => {
            if let InitEvent::SlotsRead { values } = event {
                if pending@.len() > 0 && values@.len() == pending@[0].count && all_nonnull(
                    values@,
                ) {
                    lemma_sum_unfold(pending@);
                    lemma_nonnull_concat(table@, values@);
                    if pending@.len() == 1 {
                        lemma_sum_empty(pending@.skip(1));
                    } else {
                        assert forall|i: int| 0 <= i < pending@.skip(1).len() implies (
                        #[trigger] pending@.skip(1)[i]).count > 0 && pending@.skip(1)[i].object
                            != 0 by {
                            assert(pending@.skip(1)[i] == pending@[i + 1]);
                        }
                    }
                }
            }
        },
        _ => {},
    }
}

/// The kinds and payloads of two failures agree.
pub open spec fn error_models_equal(a: KieroError, b: KieroError) -> bool {
    a.message@ == b.message@ && match (a.kind, b.kind) {
        (ErrorKind::Unknown, ErrorKind::Unknown) => true,
        (ErrorKind::NotSupported, ErrorKind::NotSupported) => true,
        (ErrorKind::ModuleNotFound(x), ErrorKind::ModuleNotFound(y)) => x@ == y@,
        (ErrorKind::AlreadyInitialized, ErrorKind::AlreadyInitialized) => true,
        (ErrorKind::NotInitialized, ErrorKind::NotInitialized) => true,
        (ErrorKind::IoError(x), ErrorKind::IoError(y)) => x == y,
        _ => false,
    }
}

/// Two protocol states agree: same variant, and every value they carry is
/// equal.
pub open spec fn state_models_equal(a: InitState, b: InitState) -> bool {
    match (a, b) {
        (InitState::AwaitSurface, InitState::AwaitSurface) => true,
        (InitState::AwaitModule { hwnd: h1 }, InitState::AwaitModule { hwnd: h2 }) => h1 == h2,
        (
            InitState::AwaitSymbol { hwnd: h1, module: m1 },
            InitState::AwaitSymbol { hwnd: h2, module: m2 },
        ) => h1 == h2 && m1 == m2,
        (
            InitState::AwaitFactory { hwnd: h1, symbol: s1 },
            InitState::AwaitFactory { hwnd: h2, symbol: s2 },
        ) => h1 == h2 && s1 == s2,
        (
            InitState::AwaitDevice { hwnd: h1, factory: f1 },
            InitState::AwaitDevice { hwnd: h2, factory: f2 },
        ) => h1 == h2 && f1 == f2,
        (
            InitState::AwaitCreation { hwnd: h1, symbol: s1 },
            InitState::AwaitCreation { hwnd: h2, symbol: s2 },
        ) => h1 == h2 && s1 == s2,
        (
            InitState::Extracting { pending: p1, table: t1 },
            InitState::Extracting { pending: p2, table: t2 },
        ) => p1@ == p2@ && t1@ == t2@,
        (InitState::Done { table: t1 }, InitState::Done { table: t2 }) => t1@ == t2@,
        (InitState::Failed { error: e1 }, InitState::Failed { error: e2 }) => error_models_equal(
            e1,
            e2,
        ),
        _ => false,
    }
}

proof fn lemma_error_models_equal_refl(a: KieroError, b: KieroError)
    requires
        a == b,
    ensures
        error_models_equal(a, b),
{
    match a.kind {
        ErrorKind::Unknown => {},
        ErrorKind::NotSupported => {},
        ErrorKind::ModuleNotFound(x) => {},
        ErrorKind::AlreadyInitialized => {},
        ErrorKind::NotInitialized => {},
        ErrorKind::IoError(x) => {},
    }
}

proof fn lemma_state_models_equal_refl(a: InitState, b: InitState)
    requires
        a == b,
    ensures
        state_models_equal(a, b),
{
    match a {
        InitState::Failed { error } => {
            lemma_error_models_equal_refl(error, error);
        },
        _ => {},
    }
}

/// The protocol is deterministic: from equal states, equal outcomes of the
/// operating-system calls lead to equal successor states. In particular,
/// extracting a second time over the same dispatch tables yields the same
/// addresses in the same order.
pub proof fn lemma_transition_deterministic(
    rt: RenderType,
    pre: InitState,
    event: InitEvent,
    post1: InitState,
    post2: InitState,
)
    requires
        transition(rt, pre, event, post1),
        transition(rt, pre, event, post2),
    ensures
        state_models_equal(post1, post2),
{
    match pre {
        InitState::Done { .. } => {
            lemma_state_models_equal_refl(post1, post2);
        },
        InitState::Failed { .. } => {
            lemma_state_models_equal_refl(post1, post2);
        },
        _ => {},
    }
}

/// A single-object extraction, as the D3D9 path plans it: when one read is
/// left and the protocol finishes, the whole table is exactly the values
/// read, in table order.
pub proof fn lemma_extraction_returns_single_read(
    rt: RenderType,
    s0: InitState,
    e: InitEvent,
    s1: InitState,
)
    requires
        transition(rt, s0, e, s1),
        s0 matches InitState::Extracting { pending, table } && pending@.len() == 1
            && table@.len() == 0,
        s1 is Done,
    ensures
        e is SlotsRead,
        s1->Done_table@ == e->SlotsRead_values@,
        e->SlotsRead_values@.len() == s0->Extracting_pending@[0].count,
{
    match e {
        InitEvent::SlotsRead { values } => {
            assert(s1->Done_table@ =~= e->SlotsRead_values@);
        },
        _ => {
            assert(false);
        },
    }
}

/// A three-object extraction in plan order, as the D3D11 path plans it: when
/// three reads are left and the protocol finishes, the whole table is the
/// three reads concatenated in that order — the first object's slots precede
/// the second object's, which precede the third object's.
pub proof fn lemma_extraction_preserves_plan_order(
    rt: RenderType,
    s0: InitState,
    e1: InitEvent,
    s1: InitState,
    e2: InitEvent,
    s2: InitState,
    e3: InitEvent,
    s3: InitState,
)
    requires
        transition(rt, s0, e1, s1),
        transition(rt, s1, e2, s2),
        transition(rt, s2, e3, s3),
        s0 matches InitState::Extracting { pending, table } && pending@.len() == 3
            && table@.len() == 0,
        s3 is Done,
    ensures
        e1 is SlotsRead && e2 is SlotsRead && e3 is SlotsRead,
        s3->Done_table@ == e1->SlotsRead_values@ + e2->SlotsRead_values@
            + e3->SlotsRead_values@,
        e1->SlotsRead_values@.len() == s0->Extracting_pending@[0].count,
        e2->SlotsRead_values@.len() == s0->Extracting_pending@[1].count,
        e3->SlotsRead_values@.len() == s0->Extracting_pending@[2].count,
{
    let pending0 = s0->Extracting_pending@;
    if !(s1 matches InitState::Extracting { pending, table } && pending@ == pending0.skip(1)
        && table@ == e1->SlotsRead_values@) {
        assert(s1 is Failed);
        assert(s2 == s1);
        assert(s3 == s2);
        assert(false);
    }
    assert(s1->Extracting_table@ =~= e1->SlotsRead_values@);
    assert(pending0.skip(1)[0] == pending0[1]);
    assert(pending0.skip(1)[1] == pending0[2]);
    if !(s2 matches InitState::Extracting { pending, table } && pending@ == pending0.skip(
        1,
    ).skip(1) && table@ == e1->SlotsRead_values@ + e2->SlotsRead_values@) {
        assert(s2 is Failed);
        assert(s3 == s2);
        assert(false);
    }
    assert(pending0.skip(1).skip(1)[0] == pending0[2]);
    match e3 {
        InitEvent::SlotsRead { values } => {
            assert(s3->Done_table@ =~= e1->SlotsRead_values@ + e2->SlotsRead_values@
                + e3->SlotsRead_values@);
        },
        _ => {
            assert(false);
        },
    }
}

/// After a successful initialization, the extracted table always has exactly
/// the backend's fixed slot total.
pub proof fn lemma_done_table_length(rt: RenderType, s: InitState)
    requires
        state_wf(rt, s),
        s is Done,
    ensures
        s->Done_table@.len() == total_slots(rt),
{
}

/// Every address of a successfully extracted table is non-null.
pub proof fn lemma_done_table_nonnull(rt: RenderType, s: InitState)
    requires
        state_wf(rt, s),
        s is Done,
    ensures
        forall|i: int| 0 <= i < s->Done_table@.len() ==> s->Done_table@[i] != 0,
{
}

fn protocol_fault_state() -> (s: InitState)
    ensures
        protocol_fault(s),
{
    InitState::Failed {
        error: KieroError::new(ErrorKind::Unknown, "unexpected event".to_owned()),
    }
}

fn all_nonnull_exec(values: &Vec<usize>) -> (r: bool)
    ensures
        r == all_nonnull(values@),
{
    let mut i: usize = 0;
    while i < values.len()
        invariant
            i <= values@.len(),
            forall|j: int| 0 <= j < i ==> values@[j] != 0,
        decreases values@.len() - i,
    {
        if values[i] == 0 {
            assert(values@[i as int] == 0);
            return false;
        }
        i += 1;
    }
    true
}

/// One initialization run: the chosen backend together with the current
/// protocol state. The embedding program performs [`Self::next_action`],
/// hands the outcome to [`Self::step`], and repeats until the session is
/// finished; [`Self::into_result`] then yields the address table or the
/// first failure.
#[derive(Debug)]
pub struct InitSession {
    render_type: RenderType,
    state: InitState,
}

impl InitSession {
    /// The backend this session initializes.
    pub closed spec fn spec_render_type(&self) -> RenderType {
        self.render_type
    }

    /// The current protocol state.
    pub closed spec fn spec_state(&self) -> InitState {
        self.state
    }

    /// Begin an initialization run for the chosen backend. A backend whose
    /// creation sequence this library does not implement fails at once.
    pub fn new(render_type: RenderType) -> (s: InitSession)
        ensures
            s.spec_render_type() == render_type,
            supported_backend(render_type) ==> s.spec_state() is AwaitSurface,
            !supported_backend(render_type) ==> failed_not_supported(
                s.spec_state(),
                "backend is not implemented"@,
            ),
            state_wf(render_type, s.spec_state()),
    {
        match render_type {
            RenderType::D3D9 | RenderType::D3D11 => InitSession {
                render_type,
                state: InitState::AwaitSurface,
            },
            _ => InitSession {
                render_type,
                state: InitState::Failed {
                    error: KieroError::new(
                        ErrorKind::NotSupported,
                        "backend is not implemented".to_owned(),
                    ),
                },
            },
        }
    }

    /// The backend this session initializes.
    pub fn render_type(&self) -> (r: RenderType)
        ensures
            r == self.spec_render_type(),
    {
        self.render_type
    }

    /// Whether the protocol has reached a terminal state.
    pub fn is_finished(&self) -> (b: bool)
        ensures
            b == terminal(self.spec_state()),
    {
        match &self.state {
            InitState::Done { .. } => true,
            InitState::Failed { .. } => true,
            _ => false,
        }
    }

    /// The operating-system call owed in the current state.
    pub fn next_action(&self) -> (a: InitAction)
        requires
            state_wf(self.spec_render_type(), self.spec_state()),
        ensures
            action_for(self.spec_render_type(), self.spec_state(), a),
    {
        match &self.state {
            InitState::AwaitSurface => InitAction::CreateSurface,
            InitState::AwaitModule { .. } => InitAction::FindModule {
                name: module_name(self.render_type),
            },
            InitState::AwaitSymbol { module, .. } => InitAction::ResolveSymbol {
                module: *module,
                name: symbol_name(self.render_type),
            },
            InitState::AwaitFactory { symbol, .. } => InitAction::InvokeFactory {
                symbol: *symbol,
                sdk_version: d3d9::D3D9_SDK_VERSION,
            },
            InitState::AwaitDevice { hwnd, factory } => InitAction::CreateDevice {
                factory: *factory,
                hwnd: *hwnd,
            },
            InitState::AwaitCreation { hwnd, symbol } => InitAction::CreateDeviceAndSwapChain {
                symbol: *symbol,
                hwnd: *hwnd,
                sdk_version: d3d11::D3D11_SDK_VERSION,
            },
            InitState::Extracting { pending, .. } => {
                let pr = pending[0];
                InitAction::ReadSlots { object: pr.object, count: pr.count }
            },
            InitState::Done { .. } => InitAction::Finished,
            InitState::Failed { .. } => InitAction::Finished,
        }
    }

    /// Apply the outcome of the requested call. The successor state is the
    /// one the transition relation prescribes, and well-formedness is kept.
    pub fn step(self, event: InitEvent) -> (next: InitSession)
        ensures
            next.spec_render_type() == self.spec_render_type(),
            transition(self.spec_render_type(), self.spec_state(), event, next.spec_state()),
            state_wf(self.spec_render_type(), self.spec_state()) ==> state_wf(
                next.spec_render_type(),
                next.spec_state(),
            ),
    {
        let ghost pre_state = self.state;
        let ghost pre_event = event;
        let InitSession { render_type, state } = self;
        let next_state: InitState = match state {
            InitState::AwaitSurface => match event {
                InitEvent::SurfaceCreated { hwnd, os_error } => {
                    if hwnd == 0 {
                        InitState::Failed {
                            error: KieroError::new(
                                ErrorKind::IoError(os_error),
                                "failed to create the offscreen surface".to_owned(),
                            ),
                        }
                    } else {
                        InitState::AwaitModule { hwnd }
                    }
                },
                _ => protocol_fault_state(),
            },
            InitState::AwaitModule { hwnd } => match event {
                InitEvent::ModuleLookup { handle } => {
                    if handle == 0 {
                        InitState::Failed {
                            error: KieroError::new(
                                ErrorKind::ModuleNotFound(module_name(render_type)),
                                "driver module is not loaded".to_owned(),
                            ),
                        }
                    } else {
                        InitState::AwaitSymbol { hwnd, module: handle }
                    }
                },
                _ => protocol_fault_state(),
            },
            InitState::AwaitSymbol { hwnd, module } => match event {
                InitEvent::SymbolLookup { address } => {
                    if address == 0 {
                        InitState::Failed {
                            error: KieroError::new(
                                ErrorKind::NotSupported,
                                "factory symbol not found".to_owned(),
                            ),
                        }
                    } else {
                        match render_type {
                            RenderType::D3D9 => InitState::AwaitFactory { hwnd, symbol: address },
                            RenderType::D3D11 => InitState::AwaitCreation {
                                hwnd,
                                symbol: address,
                            },
                            _ => protocol_fault_state(),
                        }
                    }
                },
                _ => protocol_fault_state(),
            },
            InitState::AwaitFactory { hwnd, .. } => match event {
                InitEvent::FactoryCreated { interface_ptr } => {
                    if interface_ptr == 0 {
                        InitState::Failed {
                            error: KieroError::new(
                                ErrorKind::NotSupported,
                                "factory returned a null interface".to_owned(),
                            ),
                        }
                    } else {
                        InitState::AwaitDevice { hwnd, factory: interface_ptr }
                    }
                },
                _ => protocol_fault_state(),
            },
            InitState::AwaitDevice { .. } => match event {
                InitEvent::DeviceCreated { device, result_code } => {
                    if device == 0 || result_code < 0 {
                        InitState::Failed {
                            error: KieroError::new(
                                ErrorKind::NotSupported,
                                "device creation failed".to_owned(),
                            ),
                        }
                    } else {
                        let mut pending: Vec<PlannedRead> = Vec::new();
                        pending.push(PlannedRead { object: device, count: D3D9_DEVICE_SLOTS });
                        proof {
                            assert(pending@ =~= seq![
                                PlannedRead { object: device, count: D3D9_DEVICE_SLOTS },
                            ]);
                        }
                        InitState::Extracting { pending, table: Vec::new() }
                    }
                },
                _ => protocol_fault_state(),
            },
            InitState::AwaitCreation { .. } => match event {
                InitEvent::DeviceAndSwapChainCreated {
                    swap_chain,
                    device,
                    context,
                    result_code,
                } => {
                    if swap_chain == 0 || device == 0 || context == 0 {
                        InitState::Failed {
                            error: KieroError::new(
                                ErrorKind::NotSupported,
                                "device and swap-chain creation failed".to_owned(),
                            ),
                        }
                    } else {
                        let mut pending: Vec<PlannedRead> = Vec::new();
                        pending.push(
                            PlannedRead { object: swap_chain, count: D3D11_SWAP_CHAIN_SLOTS },
                        );
                        pending.push(PlannedRead { object: device, count: D3D11_DEVICE_SLOTS });
                        pending.push(PlannedRead { object: context, count: D3D11_CONTEXT_SLOTS });
                        proof {
                            assert(pending@ =~= seq![
                                PlannedRead { object: swap_chain, count: D3D11_SWAP_CHAIN_SLOTS },
                                PlannedRead { object: device, count: D3D11_DEVICE_SLOTS },
                                PlannedRead { object: context, count: D3D11_CONTEXT_SLOTS },
                            ]);
                        }
                        InitState::Extracting { pending, table: Vec::new() }
                    }
                },
                _ => protocol_fault_state(),
            },
            InitState::Extracting { pending, table } => match event {
                InitEvent::SlotsRead { values } => {
                    if pending.len() == 0 {
                        protocol_fault_state()
                    } else if values.len() != pending[0].count {
                        InitState::Failed {
                            error: KieroError::new(
                                ErrorKind::Unknown,
                                "slot read of unexpected length".to_owned(),
                            ),
                        }
                    } else if !all_nonnull_exec(&values) {
                        InitState::Failed {
                            error: KieroError::new(
                                ErrorKind::Unknown,
                                "null dispatch slot".to_owned(),
                            ),
                        }
                    } else {
                        let ghost old_pending = pending@;
                        let mut table2 = table;
                        let mut values2 = values;
                        table2.append(&mut values2);
                        let mut pending2 = pending;
                        let _first = pending2.remove(0);
                        proof {
                            assert(pending2@ =~= old_pending.skip(1));
                        }
                        if pending2.len() == 0 {
                            InitState::Done { table: table2 }
                        } else {
                            InitState::Extracting { pending: pending2, table: table2 }
                        }
                    }
                },
                _ => protocol_fault_state(),
            },
            InitState::Done { table } => InitState::Done { table },
            InitState::Failed { error } => InitState::Failed { error },
        };
        proof {
            assert(transition(render_type, pre_state, pre_event, next_state));
            if state_wf(render_type, pre_state) {
                lemma_transition_preserves_wf(render_type, pre_state, pre_event, next_state);
            }
        }
        InitSession { render_type, state: next_state }
    }

    /// Take the session apart: the extracted table on success, the first
    /// failure otherwise. Asking before the protocol has finished is itself
    /// an error of kind `NotInitialized`.
    pub fn into_result(self) -> (r: Result<Vec<usize>, KieroError>)
        ensures
            self.spec_state() matches InitState::Done { table } ==> r matches Ok(t) && t@
                == table@,
            self.spec_state() matches InitState::Failed { error } ==> r matches Err(e) && e
                == error,
            !terminal(self.spec_state()) ==> (r matches Err(e) && e.kind is NotInitialized),
    {
        match self.state {
            InitState::Done { table } => Ok(table),
            InitState::Failed { error } => Err(error),
            _ => Err(
                KieroError::new(
                    ErrorKind::NotInitialized,
                    "initialization is not finished".to_owned(),
                ),
            ),
        }
    }
}

} // verus!
