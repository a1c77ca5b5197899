use semantic_release_tui::component::{ComponentError, ComponentEvent, ComponentId};
use semantic_release_tui::lifecycle::{ComponentInfo, ComponentLifecycle, ComponentManager, ComponentRegistry, MountResult};

#[test]
fn test_component_registry() {
    let mut registry = ComponentRegistry::new();

    let id = ComponentId::new("test_component");
    let info = ComponentInfo::new(id.clone(), "TestComponent".to_string());

    assert!(registry.register(id.clone(), info).is_ok());
    assert!(registry.get(&id).is_some());

    registry.add_to_mount_order(id.clone());
    assert_eq!(registry.mount_order(), &[id.clone()]);

    registry.push_focus(id.clone());
    assert_eq!(registry.current_focus(), Some(&id));

    let removed_info = registry.unregister(&id);
    assert!(removed_info.is_ok());
    assert!(registry.get(&id).is_none());
}

#[test]
fn test_component_info() {
    let id = ComponentId::new("test");
    let mut info = ComponentInfo::new(id.clone(), "TestComponent".to_string());

    assert!(!info.is_mounted);
    assert!(!info.is_active);

    info.mark_mounted();
    assert!(info.is_mounted);
    assert!(info.mount_time.is_some());

    info.mark_active();
    assert!(info.is_active);

    let child_id = ComponentId::new("child");
    info.add_child(child_id.clone());
    assert!(info.children.contains(&child_id));

    info.remove_child(&child_id);
    assert!(!info.children.contains(&child_id));
}

#[test]
fn test_component_manager_creation() {
    let component_manager = ComponentManager::new();
    assert!(component_manager.get_current_focus().is_none());
    assert!(component_manager.get_mounted_components().is_empty());
}

#[test]
fn test_component_manager_shutdown() {
    let mut component_manager = ComponentManager::new();
    assert!(!component_manager.is_shutdown_requested());
    component_manager.shutdown().unwrap();
    assert!(component_manager.is_shutdown_requested());
}

#[test]
fn registry_refuses_second_registration() {
    let mut registry = ComponentRegistry::new();
    let id = ComponentId::new("dup");
    assert!(registry.register(id.clone(), ComponentInfo::new(id.clone(), "A".to_string())).is_ok());
    match registry.register(id.clone(), ComponentInfo::new(id.clone(), "B".to_string())) {
        Err(ComponentError::StateError { message }) => assert_eq!(message, "Component dup already registered"),
        other => panic!("unexpected {:?}", other),
    }
    match registry.unregister(&ComponentId::new("missing")) {
        Err(ComponentError::NotFound { id }) => assert_eq!(id.0, "missing"),
        other => panic!("unexpected {:?}", other),
    }
}

#[test]
fn registry_focus_stack_and_mount_order() {
    let mut registry = ComponentRegistry::new();
    let a = ComponentId::new("a");
    let b = ComponentId::new("b");
    registry.push_focus(a.clone());
    registry.push_focus(b.clone());
    registry.push_focus(a.clone());
    assert_eq!(registry.focus_stack(), &[b.clone(), a.clone()]);
    assert_eq!(registry.pop_focus(), Some(a.clone()));
    assert_eq!(registry.current_focus(), Some(&b));
    registry.add_to_mount_order(a.clone());
    registry.add_to_mount_order(a.clone());
    registry.add_to_mount_order(b.clone());
    assert_eq!(registry.mount_order(), &[a.clone(), b.clone()]);
    registry.remove_from_mount_order(&a);
    assert_eq!(registry.mount_order(), &[b]);
}

#[test]
fn manager_mount_activate_unmount() {
    let mut manager = ComponentManager::new();
    let a = ComponentId::new("a");
    let b = ComponentId::new("b");
    assert!(manager.begin_mount(a.clone(), "Panel".to_string()).is_ok());
    assert!(manager.complete_mount(&a, Ok(())).is_ok());
    assert!(manager.begin_mount(b.clone(), "Panel".to_string()).is_ok());
    assert!(manager.complete_mount(&b, Ok(())).is_ok());
    let mut mounted = manager.get_mounted_components();
    mounted.sort_by(|x, y| x.0.cmp(&y.0));
    assert_eq!(mounted, vec![a.clone(), b.clone()]);

    assert!(manager.activate_component(&a).is_ok());
    assert_eq!(manager.get_current_focus(), Some(a.clone()));
    assert!(manager.activate_component(&b).is_ok());
    assert_eq!(manager.get_current_focus(), Some(b.clone()));

    assert!(manager.unmount_component(&b).is_ok());
    assert_eq!(manager.get_current_focus(), Some(a.clone()));
    assert_eq!(manager.get_mounted_components(), vec![a.clone()]);

    match manager.activate_component(&b) {
        Err(ComponentError::StateError { message }) => assert_eq!(message, "Cannot activate unmounted component: b"),
        other => panic!("unexpected {:?}", other),
    }
    let events = manager.take_events();
    assert!(matches!(events.last(), Some(ComponentEvent::FocusLost { component_id }) if component_id.0 == "b"));
}

#[test]
fn manager_failed_mount_unregisters() {
    let mut manager = ComponentManager::new();
    let a = ComponentId::new("a");
    assert!(manager.begin_mount(a.clone(), "Panel".to_string()).is_ok());
    let failure = ComponentError::LifecycleError { message: "boom".to_string() };
    assert!(manager.complete_mount(&a, Err(failure)).is_err());
    assert!(manager.get_mounted_components().is_empty());
    match manager.unmount_component(&a) {
        Err(ComponentError::NotFound { id }) => assert_eq!(id.0, "a"),
        other => panic!("unexpected {:?}", other),
    }
}

#[test]
fn manager_shutdown_unmounts_everything() {
    let mut manager = ComponentManager::new();
    for name in ["x", "y", "z"] {
        let id = ComponentId::new(name);
        manager.begin_mount(id.clone(), "Panel".to_string()).unwrap();
        manager.complete_mount(&id, Ok(())).unwrap();
    }
    manager.shutdown().unwrap();
    assert!(manager.get_mounted_components().is_empty());
    assert!(manager.is_shutdown_requested());
}

struct Probe {
    id: ComponentId,
    fail: bool,
}

impl ComponentLifecycle for Probe {
    fn on_mount(&mut self) -> MountResult {
        if self.fail {
            Err(ComponentError::StateError { message: "no".to_string() })
        } else {
            Ok(())
        }
    }

    fn lifecycle_id(&self) -> &ComponentId {
        &self.id
    }
}

#[test]
fn mount_component_registers_mounts_and_reports_focus() {
    let mut manager = ComponentManager::new();
    let mut probe = Probe { id: ComponentId::new("probe"), fail: false };
    assert!(manager.mount_component(&mut probe, "Probe".to_string()).is_ok());
    assert_eq!(manager.get_mounted_components().len(), 1);
    let events = manager.take_events();
    assert_eq!(events.len(), 1);
    assert!(matches!(&events[0], ComponentEvent::FocusGained { component_id } if component_id.0 == "probe"));
    match manager.mount_component(&mut probe, "Probe".to_string()) {
        Err(ComponentError::StateError { message }) => assert_eq!(message, "Component probe already registered"),
        other => panic!("unexpected {:?}", other),
    }
}

#[test]
fn mount_component_failed_hook_leaves_nothing_registered() {
    let mut manager = ComponentManager::new();
    let mut probe = Probe { id: ComponentId::new("broken"), fail: true };
    assert!(manager.mount_component(&mut probe, "Probe".to_string()).is_err());
    assert!(manager.get_mounted_components().is_empty());
    assert!(manager.take_events().is_empty());
}
