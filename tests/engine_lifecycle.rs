use qml::engine::QmlEngine;
use qml::native::{NativeCall, ValueSource};
use qml::uri::{build_file_uri, PathStyle};

/// A stand-in for the native layer: it tracks which objects exist and fails
/// on any call that the real layer would turn into a use-after-free or a
/// double release.
#[derive(Default)]
struct FakeNative {
    app: bool,
    engine: bool,
    running: bool,
    app_creates: usize,
    app_deletes: usize,
    engine_creates: usize,
    engine_deletes: usize,
    context_fetched: bool,
    properties: Vec<(String, ValueSource)>,
    log: Vec<NativeCall>,
}

impl FakeNative {
    fn perform(&mut self, calls: Vec<NativeCall>) {
        for call in calls {
            match &call {
                NativeCall::AppCreate => {
                    assert!(!self.app, "application created twice");
                    self.app = true;
                    self.app_creates += 1;
                }
                NativeCall::AppExec => {
                    assert!(self.app);
                    self.running = true;
                }
                NativeCall::AppQuit => {
                    assert!(self.app);
                    self.running = false;
                }
                NativeCall::AppDelete => {
                    assert!(self.app, "application released twice");
                    assert!(!self.engine, "application released before its engine");
                    self.app = false;
                    self.app_deletes += 1;
                }
                NativeCall::EngineCreate => {
                    assert!(self.app && !self.engine);
                    self.engine = true;
                    self.engine_creates += 1;
                }
                NativeCall::EngineLoadUrl(_) | NativeCall::EngineLoadData(_) => {
                    assert!(self.engine);
                }
                NativeCall::EngineContext => {
                    assert!(self.engine);
                    self.context_fetched = true;
                }
                NativeCall::ContextSetProperty(name, src) => {
                    assert!(self.engine && self.context_fetched);
                    self.properties.push((name.clone(), *src));
                }
                NativeCall::EngineDelete => {
                    assert!(self.engine, "engine released twice");
                    assert!(!self.running, "engine released while the loop runs");
                    self.engine = false;
                    self.engine_deletes += 1;
                }
            }
            self.log.push(call);
        }
    }
}

#[test]
fn file_uri_on_slash_paths() {
    assert_eq!(build_file_uri("/home/user/main.qml", PathStyle::Slash), "file:///home/user/main.qml");
    assert_eq!(build_file_uri("/", PathStyle::Slash), "file:///");
}

#[test]
fn file_uri_on_drive_letter_paths() {
    assert_eq!(
        build_file_uri("C:\\ui\\main.qml", PathStyle::DriveLetter),
        "file:///C:\\ui\\main.qml"
    );
    assert_eq!(build_file_uri("", PathStyle::DriveLetter), "file:///");
}

#[test]
fn new_creates_application_then_engine() {
    let mut e: QmlEngine<i32> = QmlEngine::new();
    assert!(e.is_live());
    assert_eq!(e.retained_count(), 0);
    assert_eq!(e.take_pending(), vec![NativeCall::AppCreate, NativeCall::EngineCreate]);
    assert_eq!(e.take_pending(), vec![]);
}

#[test]
fn default_is_new() {
    let mut e: QmlEngine<String> = QmlEngine::default();
    assert!(e.is_live());
    assert_eq!(e.retained_count(), 0);
    assert_eq!(e.take_pending(), vec![NativeCall::AppCreate, NativeCall::EngineCreate]);
}

#[test]
fn load_file_hands_the_file_uri() {
    let mut e: QmlEngine<i32> = QmlEngine::new();
    e.take_pending();
    e.load_file("/srv/app/main.qml", PathStyle::Slash);
    e.load_file("D:/app/main.qml", PathStyle::DriveLetter);
    assert_eq!(
        e.take_pending(),
        vec![
            NativeCall::EngineLoadUrl("file:///srv/app/main.qml".to_string()),
            NativeCall::EngineLoadUrl("file:///D:/app/main.qml".to_string()),
        ]
    );
}

#[test]
fn load_data_hands_the_source() {
    let mut e: QmlEngine<i32> = QmlEngine::new();
    e.take_pending();
    e.load_data("import QtQuick 2.0\nItem {}");
    assert_eq!(
        e.take_pending(),
        vec![NativeCall::EngineLoadData("import QtQuick 2.0\nItem {}".to_string())]
    );
}

#[test]
fn retaining_set_adds_one_value() {
    let mut e: QmlEngine<String> = QmlEngine::new();
    e.take_pending();
    e.set_and_store_property("title", "first".to_string());
    assert_eq!(e.retained_count(), 1);
    e.set_and_store_property("subtitle", "second".to_string());
    assert_eq!(e.retained_count(), 2);
    assert_eq!(e.retained_value(0), "first");
    assert_eq!(e.retained_value(1), "second");
    assert_eq!(
        e.take_pending(),
        vec![
            NativeCall::EngineContext,
            NativeCall::ContextSetProperty("title".to_string(), ValueSource::Retained(0)),
            NativeCall::EngineContext,
            NativeCall::ContextSetProperty("subtitle".to_string(), ValueSource::Retained(1)),
        ]
    );
}

#[test]
fn retaining_set_under_a_used_name_keeps_both_values() {
    let mut e: QmlEngine<i32> = QmlEngine::new();
    e.set_and_store_property("count", 1);
    e.set_and_store_property("count", 2);
    assert_eq!(e.retained_count(), 2);
    assert_eq!(*e.retained_value(0), 1);
    assert_eq!(*e.retained_value(1), 2);
}

#[test]
fn non_retaining_set_keeps_nothing() {
    let mut e: QmlEngine<i32> = QmlEngine::new();
    e.set_and_store_property("a", 5);
    e.take_pending();
    e.set_property("frame");
    e.set_property("frame");
    assert_eq!(e.retained_count(), 1);
    assert_eq!(
        e.take_pending(),
        vec![
            NativeCall::EngineContext,
            NativeCall::ContextSetProperty("frame".to_string(), ValueSource::Given),
            NativeCall::EngineContext,
            NativeCall::ContextSetProperty("frame".to_string(), ValueSource::Given),
        ]
    );
}

#[test]
fn teardown_releases_each_object_once() {
    let mut native = FakeNative::default();
    let mut e: QmlEngine<i32> = QmlEngine::new();
    native.perform(e.take_pending());
    for i in 0..10 {
        e.set_and_store_property("value", i);
        native.perform(e.take_pending());
    }
    e.destroy();
    assert!(!e.is_live());
    native.perform(e.take_pending());
    e.destroy();
    native.perform(e.take_pending());
    assert_eq!(native.app_creates, 1);
    assert_eq!(native.engine_creates, 1);
    assert_eq!(native.engine_deletes, 1);
    assert_eq!(native.app_deletes, 1);
    assert_eq!(e.retained_count(), 10);
    assert_eq!(
        native.log[native.log.len() - 3..].to_vec(),
        vec![NativeCall::AppQuit, NativeCall::EngineDelete, NativeCall::AppDelete]
    );
}

#[test]
fn teardown_after_running_stops_the_loop_first() {
    let mut native = FakeNative::default();
    let mut e: QmlEngine<i32> = QmlEngine::new();
    e.load_data("Item {}");
    e.exec();
    native.perform(e.take_pending());
    assert!(native.running);
    e.destroy();
    native.perform(e.take_pending());
    assert!(!native.running && !native.engine && !native.app);
}

#[test]
fn quit_before_exec_is_harmless() {
    let mut native = FakeNative::default();
    let mut e: QmlEngine<i32> = QmlEngine::new();
    e.quit();
    assert!(e.is_live());
    let first = e.take_pending();
    assert_eq!(
        first,
        vec![NativeCall::AppCreate, NativeCall::EngineCreate, NativeCall::AppQuit]
    );
    native.perform(first);
    e.quit();
    native.perform(e.take_pending());
    assert!(native.app && native.engine && !native.running);
    e.destroy();
    native.perform(e.take_pending());
    assert_eq!(native.app_deletes, 1);
}

#[test]
fn load_publish_and_destroy_without_running() {
    let mut native = FakeNative::default();
    let mut e: QmlEngine<i32> = QmlEngine::new();
    e.load_data("dummy");
    e.set_and_store_property("count", 42);
    e.destroy();
    native.perform(e.take_pending());
    assert_eq!(
        native.log,
        vec![
            NativeCall::AppCreate,
            NativeCall::EngineCreate,
            NativeCall::EngineLoadData("dummy".to_string()),
            NativeCall::EngineContext,
            NativeCall::ContextSetProperty("count".to_string(), ValueSource::Retained(0)),
            NativeCall::AppQuit,
            NativeCall::EngineDelete,
            NativeCall::AppDelete,
        ]
    );
    assert_eq!(native.app_creates, native.app_deletes);
    assert_eq!(native.properties, vec![("count".to_string(), ValueSource::Retained(0))]);
    assert_eq!(*e.retained_value(0), 42);
}

#[test]
fn exec_then_quit_from_elsewhere() {
    let mut native = FakeNative::default();
    let mut e: QmlEngine<i32> = QmlEngine::new();
    e.exec();
    native.perform(e.take_pending());
    assert!(native.running);
    e.quit();
    native.perform(e.take_pending());
    assert!(!native.running);
    e.destroy();
    native.perform(e.take_pending());
    assert_eq!(native.engine_deletes, 1);
}
