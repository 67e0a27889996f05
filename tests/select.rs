use quinn_runtime::select::{default_runtime, Backend, CompiledBackends};

fn both() -> CompiledBackends {
    CompiledBackends { tokio: true, async_std: true }
}

#[test]
fn select_binds_to_ambient_backend() {
    assert_eq!(default_runtime(both(), Some(Backend::Tokio)), Some(Backend::Tokio));
    let only_tokio = CompiledBackends { tokio: true, async_std: false };
    assert_eq!(default_runtime(only_tokio, Some(Backend::Tokio)), Some(Backend::Tokio));
}

#[test]
fn select_falls_back_to_sole_alternative() {
    assert_eq!(default_runtime(both(), None), Some(Backend::AsyncStd));
    let only_async_std = CompiledBackends { tokio: false, async_std: true };
    assert_eq!(default_runtime(only_async_std, None), Some(Backend::AsyncStd));
    assert_eq!(default_runtime(only_async_std, Some(Backend::Tokio)), Some(Backend::AsyncStd));
}

#[test]
fn select_needs_explicit_runtime_without_context() {
    let only_tokio = CompiledBackends { tokio: true, async_std: false };
    assert_eq!(default_runtime(only_tokio, None), None);
}

#[test]
fn select_nothing_compiled_in() {
    assert_eq!(default_runtime(CompiledBackends::none(), None), None);
    assert_eq!(default_runtime(CompiledBackends::none(), Some(Backend::Tokio)), None);
}

#[test]
fn select_is_deterministic() {
    for compiled in [both(), CompiledBackends::none(), CompiledBackends { tokio: true, async_std: false }] {
        for ambient in [None, Some(Backend::Tokio), Some(Backend::AsyncStd)] {
            assert_eq!(default_runtime(compiled, ambient), default_runtime(compiled, ambient));
        }
    }
}

#[test]
fn compiled_backends_contains() {
    let c = CompiledBackends { tokio: false, async_std: true };
    assert!(!c.contains(Backend::Tokio));
    assert!(c.contains(Backend::AsyncStd));
}
