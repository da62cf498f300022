use kiero::backend::{InitAction, InitEvent, InitSession};
use kiero::error::ErrorKind;
use kiero::RenderType;

fn synthetic_slots(base: usize, count: usize) -> Vec<usize> {
    let mut v: Vec<usize> = Vec::new();
    let mut i: usize = 0;
    while i < count {
        v.push(base + i);
        i += 1;
    }
    v
}

fn drive_d3d9(device_slots: Vec<usize>) -> InitSession {
    let mut s = InitSession::new(RenderType::D3D9);
    s = s.step(InitEvent::SurfaceCreated {
        hwnd: 0x100,
        os_error: 0,
    });
    s = s.step(InitEvent::ModuleLookup { handle: 0x7000 });
    s = s.step(InitEvent::SymbolLookup { address: 0x8000 });
    s = s.step(InitEvent::FactoryCreated {
        interface_ptr: 0x9000,
    });
    s = s.step(InitEvent::DeviceCreated {
        device: 0xA000,
        result_code: 0,
    });
    s.step(InitEvent::SlotsRead {
        values: device_slots,
    })
}

#[test]
fn d3d9_end_to_end() {
    let mut s = InitSession::new(RenderType::D3D9);
    assert!(matches!(s.next_action(), InitAction::CreateSurface));
    s = s.step(InitEvent::SurfaceCreated {
        hwnd: 0x100,
        os_error: 0,
    });
    match s.next_action() {
        InitAction::FindModule { name } => assert_eq!(name, "d3d9.dll"),
        other => panic!("expected a module lookup, got {:?}", other),
    }
    s = s.step(InitEvent::ModuleLookup { handle: 0x7000 });
    match s.next_action() {
        InitAction::ResolveSymbol { module, name } => {
            assert_eq!(module, 0x7000);
            assert_eq!(name, "Direct3DCreate9");
        }
        other => panic!("expected a symbol lookup, got {:?}", other),
    }
    s = s.step(InitEvent::SymbolLookup { address: 0x8000 });
    match s.next_action() {
        InitAction::InvokeFactory {
            symbol,
            sdk_version,
        } => {
            assert_eq!(symbol, 0x8000);
            assert_eq!(sdk_version, 32);
        }
        other => panic!("expected a factory invocation, got {:?}", other),
    }
    s = s.step(InitEvent::FactoryCreated {
        interface_ptr: 0x9000,
    });
    match s.next_action() {
        InitAction::CreateDevice { factory, hwnd } => {
            assert_eq!(factory, 0x9000);
            assert_eq!(hwnd, 0x100);
        }
        other => panic!("expected a device creation, got {:?}", other),
    }
    s = s.step(InitEvent::DeviceCreated {
        device: 0xA000,
        result_code: 0,
    });
    let (object, count) = match s.next_action() {
        InitAction::ReadSlots { object, count } => (object, count),
        other => panic!("expected a slot read, got {:?}", other),
    };
    assert_eq!(object, 0xA000);
    assert_eq!(count, 119);
    let values = synthetic_slots(0x5000, count);
    s = s.step(InitEvent::SlotsRead {
        values: values.clone(),
    });
    assert!(s.is_finished());
    let table = s.into_result().unwrap();
    assert!(!table.is_empty());
    assert_eq!(table.len(), 119);
    for i in 0..table.len() {
        assert!(table[i] != 0);
    }
    assert_eq!(table, values);
}

#[test]
fn d3d11_end_to_end() {
    let mut s = InitSession::new(RenderType::D3D11);
    assert!(matches!(s.next_action(), InitAction::CreateSurface));
    s = s.step(InitEvent::SurfaceCreated {
        hwnd: 0x200,
        os_error: 0,
    });
    match s.next_action() {
        InitAction::FindModule { name } => assert_eq!(name, "d3d11.dll"),
        other => panic!("expected a module lookup, got {:?}", other),
    }
    s = s.step(InitEvent::ModuleLookup { handle: 0x7100 });
    match s.next_action() {
        InitAction::ResolveSymbol { module, name } => {
            assert_eq!(module, 0x7100);
            assert_eq!(name, "D3D11CreateDeviceAndSwapChain");
        }
        other => panic!("expected a symbol lookup, got {:?}", other),
    }
    s = s.step(InitEvent::SymbolLookup { address: 0x8100 });
    match s.next_action() {
        InitAction::CreateDeviceAndSwapChain {
            symbol,
            hwnd,
            sdk_version,
        } => {
            assert_eq!(symbol, 0x8100);
            assert_eq!(hwnd, 0x200);
            assert_eq!(sdk_version, 7);
        }
        other => panic!("expected the combined creation, got {:?}", other),
    }
    s = s.step(InitEvent::DeviceAndSwapChainCreated {
        swap_chain: 0xB000,
        device: 0xC000,
        context: 0xD000,
        result_code: 0,
    });

    let expected = [(0xB000usize, 18usize), (0xC000, 43), (0xD000, 144)];
    let mut all_values: Vec<usize> = Vec::new();
    let mut base: usize = 0x1000;
    for (want_object, want_count) in expected {
        let (object, count) = match s.next_action() {
            InitAction::ReadSlots { object, count } => (object, count),
            other => panic!("expected a slot read, got {:?}", other),
        };
        assert_eq!(object, want_object);
        assert_eq!(count, want_count);
        let values = synthetic_slots(base, count);
        base += 0x1000;
        all_values.extend_from_slice(&values);
        s = s.step(InitEvent::SlotsRead { values });
    }
    assert!(s.is_finished());
    let table = s.into_result().unwrap();
    assert_eq!(table.len(), 205);
    assert_eq!(table.len(), 18 + 43 + 144);
    for i in 0..table.len() {
        assert!(table[i] != 0);
    }
    // swap-chain slots precede device slots precede context slots
    assert_eq!(table, all_values);
}

#[test]
fn extraction_is_repeatable() {
    let values = synthetic_slots(0x4000, 119);
    let first = drive_d3d9(values.clone()).into_result().unwrap();
    let second = drive_d3d9(values).into_result().unwrap();
    assert_eq!(first, second);
}

#[test]
fn d3d9_module_not_found() {
    let mut s = InitSession::new(RenderType::D3D9);
    s = s.step(InitEvent::SurfaceCreated {
        hwnd: 0x100,
        os_error: 0,
    });
    s = s.step(InitEvent::ModuleLookup { handle: 0 });
    assert!(s.is_finished());
    let err = s.into_result().unwrap_err();
    match err.kind {
        ErrorKind::ModuleNotFound(name) => assert_eq!(name, "d3d9.dll"),
        other => panic!("expected ModuleNotFound, got {:?}", other),
    }
}

#[test]
fn d3d11_module_not_found() {
    let mut s = InitSession::new(RenderType::D3D11);
    s = s.step(InitEvent::SurfaceCreated {
        hwnd: 0x100,
        os_error: 0,
    });
    s = s.step(InitEvent::ModuleLookup { handle: 0 });
    let err = s.into_result().unwrap_err();
    match err.kind {
        ErrorKind::ModuleNotFound(name) => assert_eq!(name, "d3d11.dll"),
        other => panic!("expected ModuleNotFound, got {:?}", other),
    }
}

#[test]
fn missing_symbol_is_not_supported() {
    let mut s = InitSession::new(RenderType::D3D9);
    s = s.step(InitEvent::SurfaceCreated {
        hwnd: 0x100,
        os_error: 0,
    });
    s = s.step(InitEvent::ModuleLookup { handle: 0x7000 });
    s = s.step(InitEvent::SymbolLookup { address: 0 });
    let err = s.into_result().unwrap_err();
    assert!(matches!(err.kind, ErrorKind::NotSupported));
}

#[test]
fn surface_failure_reports_os_error() {
    let mut s = InitSession::new(RenderType::D3D9);
    s = s.step(InitEvent::SurfaceCreated {
        hwnd: 0,
        os_error: 5,
    });
    let err = s.into_result().unwrap_err();
    match err.kind {
        ErrorKind::IoError(code) => assert_eq!(code, 5),
        other => panic!("expected IoError, got {:?}", other),
    }
}

#[test]
fn d3d9_null_factory_interface_fails() {
    let mut s = InitSession::new(RenderType::D3D9);
    s = s.step(InitEvent::SurfaceCreated {
        hwnd: 0x100,
        os_error: 0,
    });
    s = s.step(InitEvent::ModuleLookup { handle: 0x7000 });
    s = s.step(InitEvent::SymbolLookup { address: 0x8000 });
    s = s.step(InitEvent::FactoryCreated { interface_ptr: 0 });
    let err = s.into_result().unwrap_err();
    assert!(matches!(err.kind, ErrorKind::NotSupported));
}

#[test]
fn d3d9_rejected_device_creation_fails() {
    let mut s = InitSession::new(RenderType::D3D9);
    s = s.step(InitEvent::SurfaceCreated {
        hwnd: 0x100,
        os_error: 0,
    });
    s = s.step(InitEvent::ModuleLookup { handle: 0x7000 });
    s = s.step(InitEvent::SymbolLookup { address: 0x8000 });
    s = s.step(InitEvent::FactoryCreated {
        interface_ptr: 0x9000,
    });
    s = s.step(InitEvent::DeviceCreated {
        device: 0xA000,
        result_code: -1,
    });
    let err = s.into_result().unwrap_err();
    assert!(matches!(err.kind, ErrorKind::NotSupported));
}

#[test]
fn d3d11_null_context_fails() {
    let mut s = InitSession::new(RenderType::D3D11);
    s = s.step(InitEvent::SurfaceCreated {
        hwnd: 0x200,
        os_error: 0,
    });
    s = s.step(InitEvent::ModuleLookup { handle: 0x7100 });
    s = s.step(InitEvent::SymbolLookup { address: 0x8100 });
    s = s.step(InitEvent::DeviceAndSwapChainCreated {
        swap_chain: 0xB000,
        device: 0xC000,
        context: 0,
        result_code: -1,
    });
    let err = s.into_result().unwrap_err();
    assert!(matches!(err.kind, ErrorKind::NotSupported));
}

#[test]
fn null_dispatch_slot_fails() {
    let mut values = synthetic_slots(0x4000, 119);
    values[57] = 0;
    let err = drive_d3d9(values).into_result().unwrap_err();
    assert!(matches!(err.kind, ErrorKind::Unknown));
}

#[test]
fn short_slot_read_fails() {
    let values = synthetic_slots(0x4000, 118);
    let err = drive_d3d9(values).into_result().unwrap_err();
    assert!(matches!(err.kind, ErrorKind::Unknown));
}

#[test]
fn unexpected_event_is_a_protocol_fault() {
    let s = InitSession::new(RenderType::D3D9);
    let s = s.step(InitEvent::ModuleLookup { handle: 0x7000 });
    let err = s.into_result().unwrap_err();
    assert!(matches!(err.kind, ErrorKind::Unknown));
}

#[test]
fn unimplemented_backends_fail_at_once() {
    for rt in [RenderType::D3D12, RenderType::OpenGL, RenderType::Vulkan] {
        let s = InitSession::new(rt);
        assert!(s.is_finished());
        let err = s.into_result().unwrap_err();
        assert!(matches!(err.kind, ErrorKind::NotSupported));
    }
}

#[test]
fn early_result_is_not_initialized() {
    let mut s = InitSession::new(RenderType::D3D9);
    s = s.step(InitEvent::SurfaceCreated {
        hwnd: 0x100,
        os_error: 0,
    });
    assert!(!s.is_finished());
    let err = s.into_result().unwrap_err();
    assert!(matches!(err.kind, ErrorKind::NotInitialized));
}

#[test]
fn terminal_states_absorb_events() {
    let mut s = InitSession::new(RenderType::D3D9);
    s = s.step(InitEvent::SurfaceCreated {
        hwnd: 0x100,
        os_error: 0,
    });
    s = s.step(InitEvent::ModuleLookup { handle: 0 });
    assert!(s.is_finished());
    // the failure outlives any further event
    s = s.step(InitEvent::SymbolLookup { address: 0x8000 });
    let err = s.into_result().unwrap_err();
    assert!(matches!(err.kind, ErrorKind::ModuleNotFound(_)));
}

#[test]
fn session_keeps_its_render_type() {
    let s = InitSession::new(RenderType::D3D11);
    assert_eq!(s.render_type(), RenderType::D3D11);
    let s = s.step(InitEvent::SurfaceCreated {
        hwnd: 0x200,
        os_error: 0,
    });
    assert_eq!(s.render_type(), RenderType::D3D11);
}
