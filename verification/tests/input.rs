use mvengine::input::collect::{HandlerProcessor, InputCollector, InputHandler, InputProcessor};
use mvengine::input::{Input, Key, KeyboardAction, MouseAction, RawInputEvent};
use std::cell::RefCell;
use std::rc::Rc;

type Log = Rc<RefCell<Vec<(u32, String)>>>;

struct Recorder {
    name: u32,
    log: Log,
}

impl InputHandler for Recorder {
    fn digest_action(&mut self, action: RawInputEvent, input: &Input) {
        self.log
            .borrow_mut()
            .push((self.name, format!("{:?} at {},{}", action, input.mouse_x, input.mouse_y)));
    }

    fn end_frame(&mut self) {
        self.log.borrow_mut().push((self.name, String::from("end")));
    }
}

fn recorder(name: u32, enabled: bool, log: &Log) -> HandlerProcessor<Recorder> {
    HandlerProcessor::new(Recorder { name, log: log.clone() }, enabled)
}

fn names(log: &Log) -> Vec<u32> {
    log.borrow().iter().map(|entry| entry.0).collect()
}

#[test]
fn dispatch_reaches_the_enabled_targets_in_order() {
    let log = Rc::new(RefCell::new(Vec::new()));
    let mut collector = InputCollector::new(recorder(0, false, &log));
    collector.targets.push(Box::new(recorder(1, true, &log)));
    collector.targets.push(Box::new(recorder(2, false, &log)));
    collector.targets.push(Box::new(recorder(3, true, &log)));
    let input = Input { mouse_x: 4, mouse_y: 5 };
    collector.dispatch_input(RawInputEvent::Keyboard(KeyboardAction::Press(Key(17))), &input);
    assert_eq!(names(&log), vec![0, 1, 3]);
    assert_eq!(log.borrow()[0].1, "Keyboard(Press(Key(17))) at 4,5");
    assert_eq!(log.borrow()[1].1, "Keyboard(Press(Key(17))) at 4,5");
    assert_eq!(log.borrow()[2].1, "Keyboard(Press(Key(17))) at 4,5");
    assert_eq!(collector.targets.len(), 3);
    assert!(!collector.targets[1].is_enabled());
}

#[test]
fn every_dispatch_is_one_event_for_each_enabled_target() {
    let log = Rc::new(RefCell::new(Vec::new()));
    let mut collector = InputCollector::new(recorder(0, true, &log));
    collector.targets.push(Box::new(recorder(1, true, &log)));
    collector.targets.push(Box::new(recorder(2, false, &log)));
    collector.dispatch_input(RawInputEvent::Mouse(MouseAction::Move(1, 2)), &Input::new());
    collector.dispatch_input(
        RawInputEvent::Keyboard(KeyboardAction::Release(Key(3))),
        &Input { mouse_x: 1, mouse_y: 2 },
    );
    assert_eq!(
        *log.borrow(),
        vec![
            (0, String::from("Mouse(Move(1, 2)) at 0,0")),
            (1, String::from("Mouse(Move(1, 2)) at 0,0")),
            (0, String::from("Keyboard(Release(Key(3))) at 1,2")),
            (1, String::from("Keyboard(Release(Key(3))) at 1,2")),
        ]
    );
}

#[test]
fn end_frame_reaches_the_enabled_targets_in_order() {
    let log = Rc::new(RefCell::new(Vec::new()));
    let mut collector = InputCollector::new(recorder(0, true, &log));
    collector.targets.push(Box::new(recorder(1, false, &log)));
    collector.targets.push(Box::new(recorder(2, true, &log)));
    collector.end_frame();
    assert_eq!(*log.borrow(), vec![(0, String::from("end")), (2, String::from("end"))]);
    collector.end_frame();
    assert_eq!(names(&log), vec![0, 2, 0, 2]);
}

#[test]
fn action_processor_is_reached_though_it_is_disabled() {
    let log = Rc::new(RefCell::new(Vec::new()));
    let mut collector = InputCollector::new(recorder(0, false, &log));
    collector.dispatch_input(RawInputEvent::Mouse(MouseAction::Move(1, 2)), &Input::new());
    collector.end_frame();
    assert_eq!(
        *log.borrow(),
        vec![(0, String::from("Mouse(Move(1, 2)) at 0,0")), (0, String::from("end"))]
    );
    assert!(!collector.action_processor.is_enabled());
}

#[test]
fn enable_and_disable_set_the_flag() {
    let log = Rc::new(RefCell::new(Vec::new()));
    let mut target = recorder(1, false, &log);
    assert!(!target.is_enabled());
    target.enable();
    assert!(target.is_enabled());
    target.disable();
    assert!(!target.is_enabled());
    target.set_enabled(true);
    assert!(target.is_enabled());
    target.set_enabled(false);
    let mut collector = InputCollector::new(recorder(0, true, &log));
    collector.targets.push(Box::new(target));
    collector.dispatch_input(RawInputEvent::Mouse(MouseAction::Move(1, 2)), &Input::new());
    assert_eq!(names(&log), vec![0]);
    collector.targets[0].enable();
    collector.dispatch_input(RawInputEvent::Mouse(MouseAction::Move(3, 4)), &Input::new());
    assert_eq!(names(&log), vec![0, 0, 1]);
}

#[test]
fn processor_hands_on_to_its_handler() {
    let log = Rc::new(RefCell::new(Vec::new()));
    let mut processor = recorder(7, true, &log);
    processor.digest_action(RawInputEvent::Mouse(MouseAction::Move(7, 8)), &Input::new());
    processor.end_frame();
    assert_eq!(processor.handler().name, 7);
    assert_eq!(
        *log.borrow(),
        vec![(7, String::from("Mouse(Move(7, 8)) at 0,0")), (7, String::from("end"))]
    );
}

#[test]
fn collector_without_targets_feeds_the_action_processor() {
    let log = Rc::new(RefCell::new(Vec::new()));
    let mut collector = InputCollector::new(recorder(0, true, &log));
    assert!(collector.targets.is_empty());
    collector.dispatch_input(RawInputEvent::Mouse(MouseAction::Move(7, 8)), &Input::new());
    collector.end_frame();
    assert_eq!(
        *log.borrow(),
        vec![(0, String::from("Mouse(Move(7, 8)) at 0,0")), (0, String::from("end"))]
    );
}
