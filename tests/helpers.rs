use parallel_core::descriptions::{DescriptionKind, Descriptions};
use parallel_core::editor::{CodeEditor, CodeEditorExample, CODE_SAMPLE};
use parallel_core::kitchen::{ExecutionUnit, Kitchen, KitchenApp, Task, TaskType};
use parallel_core::typename::extract_simple_type_name;

fn busy(k: &Kitchen) -> Vec<u64> {
    k.chefs.iter().map(|c| c.busy_cycles).collect()
}

#[test]
fn execution_unit_takes_only_its_kind() {
    let mut u = ExecutionUnit::new(TaskType::Grind);
    assert!(u.is_available());
    u.process(&Task { task_type: TaskType::Chop, duration: 5 });
    assert!(u.is_available());
    u.process(&Task::standard(TaskType::Grind));
    assert_eq!(u.busy_cycles, 3);
    u.tick();
    u.tick();
    assert!(!u.is_available());
    u.tick();
    assert!(u.is_available());
    u.tick();
    assert_eq!(u.busy_cycles, 0);
}

#[test]
fn standard_durations() {
    assert_eq!(Task::standard(TaskType::Chop).duration, 1);
    assert_eq!(Task::standard(TaskType::Grind).duration, 3);
    assert_eq!(Task::standard(TaskType::Sauce).duration, 4);
    assert_eq!(Task::standard(TaskType::Batch).duration, 1);
}

#[test]
fn kitchen_dispatches_to_first_free_chef() {
    let mut k = KitchenApp::new().kitchen;
    assert_eq!(k.chefs.len(), 4);
    assert_eq!(busy(&k), vec![0, 0, 0, 0]);
    k.add_task(Task::standard(TaskType::Chop));
    k.add_task(Task::standard(TaskType::Grind));
    k.add_task(Task::standard(TaskType::Chop));
    k.tick();
    assert_eq!(k.cycle, 1);
    assert_eq!(busy(&k), vec![1, 3, 0, 0]);
    assert_eq!(k.queue.len(), 1);
    assert_eq!(k.queue[0], Task::standard(TaskType::Chop));
    k.tick();
    assert_eq!(k.cycle, 2);
    assert_eq!(busy(&k), vec![1, 2, 0, 0]);
    assert!(k.queue.is_empty());
    k.tick();
    assert_eq!(busy(&k), vec![0, 1, 0, 0]);
}

#[test]
fn kitchen_keeps_unplaced_tasks_in_order() {
    let mut k = Kitchen::new();
    k.add_task(Task { task_type: TaskType::Sauce, duration: 4 });
    k.add_task(Task { task_type: TaskType::Sauce, duration: 2 });
    k.add_task(Task { task_type: TaskType::Batch, duration: 1 });
    k.add_task(Task { task_type: TaskType::Sauce, duration: 7 });
    k.tick();
    assert_eq!(busy(&k), vec![0, 0, 4, 1]);
    let left: Vec<u64> = k.queue.iter().map(|t| t.duration).collect();
    assert_eq!(left, vec![2, 7]);
}

#[test]
fn zero_length_tasks_leave_the_chef_free() {
    let mut k = Kitchen::new();
    k.add_task(Task { task_type: TaskType::Chop, duration: 0 });
    k.add_task(Task { task_type: TaskType::Chop, duration: 0 });
    k.tick();
    assert!(k.queue.is_empty());
    assert!(k.chefs[0].is_available());
}

#[test]
fn descriptions_keep_counts() {
    let mut d = Descriptions::new();
    d.add_description(("Good description".to_string(), DescriptionKind::Good));
    d.add_description(("Bad description".to_string(), DescriptionKind::Bad));
    d.add_description(("Bad2 description".to_string(), DescriptionKind::Bad));
    d.add_description(("Bad3 description".to_string(), DescriptionKind::Bad));
    assert_eq!((d.num_good(), d.num_bad(), d.len()), (1, 3, 4));
    assert_eq!(d.remove_description(4), None);
    assert_eq!(d.remove_description(3), Some(("Bad3 description".to_string(), DescriptionKind::Bad)));
    assert_eq!((d.num_good(), d.num_bad(), d.len()), (1, 2, 3));
    assert_eq!(d.remove_description(0), Some(("Good description".to_string(), DescriptionKind::Good)));
    assert_eq!((d.num_good(), d.num_bad(), d.len()), (0, 2, 2));
}

#[test]
fn simple_type_names() {
    assert_eq!(extract_simple_type_name("alloc::vec::Vec<with2::User>"), "User");
    assert_eq!(extract_simple_type_name("alloc::vec::Vec<i32>"), "i32");
    assert_eq!(extract_simple_type_name("with2::Consumer"), "Consumer");
    assert_eq!(extract_simple_type_name("i32"), "i32");
    assert_eq!(extract_simple_type_name("Vec<>"), "");
    assert_eq!(extract_simple_type_name("a::Map<b::K, c::V>"), "V");
    assert_eq!(extract_simple_type_name("a::Open<b::C"), "C");
    assert_eq!(extract_simple_type_name("x:::y"), "y");
}

#[test]
fn editor_defaults() {
    let e = CodeEditor::default();
    assert_eq!(e.language, "rs");
    assert_eq!(e.code, "// A very simple example\nfn main() {\n\tprintln!(\"Hello world!\");\n}\n");
    let x = CodeEditorExample::default();
    assert_eq!(x.language, "rs");
    assert_eq!(x.code, CODE_SAMPLE);
    assert!(x.code.starts_with("impl eframe::App for CodeEditorExample {\n"));
    assert!(x.code.ends_with("\n}"));
}
