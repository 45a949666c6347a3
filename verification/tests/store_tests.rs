use shade_eval_print_loop::command::{RenderCommand, StateUpdateCommand, TextureImage, UniformValue};
use shade_eval_print_loop::registry::Registry;
use shade_eval_print_loop::store::{FrameAction, TextureUpload, UniformStore, WindowEvent};

fn set(name: &str, value: UniformValue) -> RenderCommand {
    RenderCommand::SetUniform(name.to_string(), value)
}

fn entries<T: Clone>(registry: &Registry<T>) -> Vec<(String, T)> {
    (0..registry.len())
        .map(|index| (registry.name_at(index).clone(), registry.value_at(index).clone()))
        .collect()
}

#[test]
fn store_applies_one_command_per_tick() {
    let mut store: UniformStore<u64> = UniformStore::new();
    let mut queue = vec![
        set("a", UniformValue::Float(1)),
        set("b", UniformValue::Vector3(1, 2, 3)),
        set("a", UniformValue::Float(2)),
    ];
    queue.reverse();

    assert_eq!(None, store.process_incoming(queue.pop()));
    assert_eq!(
        vec![("a".to_string(), UniformValue::Float(1))],
        entries(store.snapshot_for_draw())
    );
    assert_eq!(2, queue.len());

    assert_eq!(None, store.process_incoming(queue.pop()));
    assert_eq!(None, store.process_incoming(queue.pop()));
    assert_eq!(
        vec![
            ("a".to_string(), UniformValue::Float(2)),
            ("b".to_string(), UniformValue::Vector3(1, 2, 3)),
        ],
        entries(store.snapshot_for_draw())
    );

    assert!(store.take_redraw());
    assert_eq!(None, store.process_incoming(queue.pop()));
    assert!(!store.take_redraw());
    assert_eq!(2, store.snapshot_for_draw().len());
}

#[test]
fn store_hands_a_texture_back_for_upload_once() {
    let mut store: UniformStore<u64> = UniformStore::new();
    let image = TextureImage::new(1, 1, vec![9, 8, 7, 6]).unwrap();
    assert!(store.take_redraw());

    let upload = store.apply(set("tex", UniformValue::RgbaTexture2D(image.clone())));
    assert_eq!(
        Some(TextureUpload { name: "tex".to_string(), image }),
        upload
    );
    assert!(store.take_redraw());
    assert_eq!(0, store.snapshot_for_draw().len());
    assert_eq!(0, store.textures_for_draw().len());

    store.attach_texture("tex".to_string(), 41);
    store.attach_texture("other".to_string(), 42);
    store.attach_texture("tex".to_string(), 43);
    assert_eq!(
        vec![("tex".to_string(), 43), ("other".to_string(), 42)],
        entries(store.textures_for_draw())
    );
    assert!(!store.take_redraw());
}

#[test]
fn store_draws_only_when_a_redraw_is_due() {
    let mut store: UniformStore<u64> = UniformStore::new();
    assert_eq!(FrameAction::Draw, store.window_event(WindowEvent::RedrawRequested));
    assert_eq!(FrameAction::Nothing, store.window_event(WindowEvent::RedrawRequested));
    assert_eq!(FrameAction::Nothing, store.window_event(WindowEvent::Other));
    assert_eq!(
        FrameAction::Resize(StateUpdateCommand::ScreenSizeChanged(250, 820)),
        store.window_event(WindowEvent::Resized(250, 820))
    );
    assert_eq!(FrameAction::Draw, store.window_event(WindowEvent::RedrawRequested));
    assert_eq!(FrameAction::Exit, store.window_event(WindowEvent::CloseRequested));
    store.request_redraw();
    assert_eq!(FrameAction::Exit, store.window_event(WindowEvent::CloseRequested));
    assert_eq!(FrameAction::Draw, store.window_event(WindowEvent::RedrawRequested));
    store.apply(set("x", UniformValue::Float(0)));
    assert_eq!(FrameAction::Draw, store.window_event(WindowEvent::RedrawRequested));
}

#[test]
fn registry_keeps_one_entry_for_each_name() {
    let mut registry: Registry<u32> = Registry::new();
    let a = "a".to_string();
    let b = "b".to_string();
    let c = "c".to_string();
    assert_eq!(0, registry.len());
    assert_eq!(None, registry.get(&a));
    assert!(!registry.remove(&a));

    registry.insert(a.clone(), 1);
    registry.insert(b.clone(), 2);
    registry.insert(c.clone(), 3);
    registry.insert(b.clone(), 20);
    assert_eq!(
        vec![(a.clone(), 1), (b.clone(), 20), (c.clone(), 3)],
        entries(&registry)
    );
    assert_eq!(1, registry.find(&b));
    assert_eq!(3, registry.find(&"d".to_string()));
    assert_eq!(Some(&20), registry.get(&b));

    assert!(registry.remove(&a));
    assert!(!registry.remove(&a));
    assert_eq!(vec![(b.clone(), 20), (c.clone(), 3)], entries(&registry));
    registry.insert(a.clone(), 5);
    assert_eq!(
        vec![(b, 20), (c, 3), (a, 5)],
        entries(&registry)
    );
}
