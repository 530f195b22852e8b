use ittapi::{Call, Dispatch, Domain, Event, Region, StringHandle, Table, Task};
use std::cell::RefCell;

/// A task whose end is tied to its scope, with a record of what goes out.
struct ScopedTask<'a> {
    task: Task<'a>,
    table: Table,
    sent: &'a RefCell<Vec<Call>>,
}

impl ScopedTask<'_> {
    fn end(self) {
        // Giving the task up ends it.
    }
}

impl Drop for ScopedTask<'_> {
    fn drop(&mut self) {
        if let Dispatch::Invoke(call) = self.task.end(&self.table) {
            self.sent.borrow_mut().push(call);
        }
    }
}

fn begin<'a>(domain: &'a Domain, table: Table, sent: &'a RefCell<Vec<Call>>) -> ScopedTask<'a> {
    let (task, begin) = Task::begin(domain, StringHandle::created(0x2000), &table);
    if let Dispatch::Invoke(call) = begin {
        sent.borrow_mut().push(call);
    }
    ScopedTask { task, table, sent }
}

#[test]
fn a_task_ends_once_whether_ended_or_dropped() {
    let domain = Domain::created(0x1000);
    let begun = Call::TaskBegin { domain: 0x1000, name: 0x2000 };
    let ended = Call::TaskEnd { domain: 0x1000 };

    // Ended by name.
    let sent = RefCell::new(Vec::new());
    begin(&domain, Table::wired(), &sent).end();
    assert_eq!(*sent.borrow(), vec![begun, ended]);

    let begun = Call::TaskBegin { domain: 0x1000, name: 0x2000 };
    let ended = Call::TaskEnd { domain: 0x1000 };

    // Ended by leaving the scope.
    let sent = RefCell::new(Vec::new());
    {
        let _task = begin(&domain, Table::wired(), &sent);
        assert_eq!(sent.borrow().len(), 1);
    }
    assert_eq!(*sent.borrow(), vec![begun, ended]);

    let begun = Call::TaskBegin { domain: 0x1000, name: 0x2000 };
    let ended = Call::TaskEnd { domain: 0x1000 };

    // Ended by hand first, and then given up.
    let sent = RefCell::new(Vec::new());
    {
        let mut scoped = begin(&domain, Table::wired(), &sent);
        if let Dispatch::Invoke(call) = scoped.task.end(&scoped.table) {
            sent.borrow_mut().push(call);
        }
    }
    assert_eq!(*sent.borrow(), vec![begun, ended]);
}

#[test]
fn a_task_without_a_backend_sends_nothing_when_dropped() {
    let domain = Domain::created(0);
    let sent = RefCell::new(Vec::new());
    {
        let _task = begin(&domain, Table::unwired(), &sent);
    }
    begin(&domain, Table::unwired(), &sent).end();
    assert_eq!(*sent.borrow(), Vec::new());
}

#[test]
fn nested_brackets_end_independently() {
    let table = Table::wired();
    let domain = Domain::created(0x1000);
    let other = Domain::created(0x1100);
    let event = Event::created(4);
    let region = Region::created(2);

    let (mut outer, _) = Task::begin(&domain, StringHandle::created(0x2000), &table);
    let (mut inner, _) = Task::begin(&other, StringHandle::created(0x2008), &table);
    let mut started = event.started(0).unwrap();
    let (mut marked, _) = region.mark(&table);

    assert_eq!(marked.end(&table), Dispatch::Invoke(Call::RegionEnd { region: 2 }));
    assert_eq!(started.end(&table), Dispatch::Invoke(Call::EventEnd { event: 4 }));
    assert_eq!(inner.end(&table), Dispatch::Invoke(Call::TaskEnd { domain: 0x1100 }));
    assert_eq!(outer.end(&table), Dispatch::Invoke(Call::TaskEnd { domain: 0x1000 }));

    assert_eq!(marked.end(&table), Dispatch::Skip);
    assert_eq!(started.end(&table), Dispatch::Skip);
    assert_eq!(inner.end(&table), Dispatch::Skip);
    assert_eq!(outer.end(&table), Dispatch::Skip);
}
