use libinko::indexes::{FieldIndex, MethodIndex};
use libinko::instruction::{Instruction, Opcode};
use libinko::mem::allocator::{BlockAllocator, BumpAllocator, Pointer};
use libinko::mem::generator::Generator;
use libinko::mem::objects::{Class, ClassPointer, Method, ModulePointer};
use libinko::mem::process::{
    Client, ClientPointer, Finished, FutureResult, FutureState, Mailbox, Message, ProcessState,
    ProcessStatus, RescheduleRights, Server, ServerPointer, WriteResult,
};
use libinko::execution_context::ExecutionContext;
use libinko::scheduler::timeouts::Timeout;
use libinko::scheduler::timeouts::Clock;
use std::time::Duration;

fn method(name: &str) -> Method {
    Method {
        hash: 123,
        name: name.to_string(),
        file: "test.inko".to_string(),
        line: 4,
        locals: 2,
        registers: 2,
        arguments: Vec::new(),
        instructions: vec![Instruction::new(Opcode::Return, [0; 6], 4)],
        module: ModulePointer::new(Pointer::new(0x8)),
    }
}

#[test]
fn test_process_status_new() {
    let status = ProcessStatus::new();

    assert_eq!(status.get_bits(), 0);
}

#[test]
fn test_process_status_set_main() {
    let mut status = ProcessStatus::new();

    status.set_main();

    assert!(status.is_main());
}

#[test]
fn test_process_status_set_blocking() {
    let mut status = ProcessStatus::new();

    status.set_blocking(true);
    assert!(status.is_blocking());

    status.set_blocking(false);
    assert_eq!(status.is_blocking(), false);
}

#[test]
fn test_process_status_set_waiting_for_message() {
    let mut status = ProcessStatus::new();

    status.set_waiting_for_message(true);
    assert!(status.is_waiting_for_message());

    status.set_waiting_for_message(false);
    assert_eq!(status.is_waiting_for_message(), false);
}

#[test]
fn test_process_status_set_waiting_for_future() {
    let mut status = ProcessStatus::new();

    status.set_waiting_for_future(true);
    assert!(status.is_waiting_for_future());

    status.set_waiting_for_future(false);
    assert_eq!(status.is_waiting_for_future(), false);
}

#[test]
fn test_process_status_is_waiting() {
    let mut status = ProcessStatus::new();

    status.set_sleeping(true);
    assert!(status.is_waiting());

    status.set_sleeping(false);
    status.set_waiting_for_future(true);
    assert!(status.is_waiting());

    status.no_longer_waiting();

    assert_eq!(status.is_waiting_for_future(), false);
    assert_eq!(status.is_waiting(), false);
}

#[test]
fn test_process_status_timeout_expired() {
    let mut status = ProcessStatus::new();

    status.set_timeout_expired(true);
    assert!(status.timeout_expired());

    status.set_timeout_expired(false);
    assert_eq!(status.timeout_expired(), false);
}

#[test]
fn test_reschedule_rights_are_acquired() {
    assert_eq!(RescheduleRights::Failed.are_acquired(), false);
    assert_eq!(RescheduleRights::Acquired.are_acquired(), true);
    assert_eq!(RescheduleRights::AcquiredWithTimeout.are_acquired(), true);
}

#[test]
fn test_server_pointer_identifier() {
    let ptr = ServerPointer::new(Pointer::new(0x4));

    assert_eq!(ptr.identifier(), 0x4);
}

#[test]
fn test_server_pointer_as_pointer() {
    let raw_ptr = Pointer::new(0x4);
    let ptr = ServerPointer::new(raw_ptr);

    assert_eq!(ptr.as_pointer(), raw_ptr);
}

#[test]
fn test_client_pointer_as_pointer() {
    let raw_ptr = Pointer::new(0x4);
    let ptr = ClientPointer::new(raw_ptr);

    assert_eq!(ptr.as_pointer(), raw_ptr);
}

#[test]
fn test_process_state_has_same_timeout() {
    let mut state = ProcessState::new();
    let timeout = Timeout::with_rc(&Clock::new(), Duration::from_secs(0).as_nanos());

    assert_eq!(state.has_same_timeout(&timeout), false);

    state.suspend(timeout.clone());

    assert!(state.has_same_timeout(&timeout));
    assert!(!state.has_same_timeout(&Timeout::with_rc(&Clock::new(), Duration::from_secs(0).as_nanos())));
}

#[test]
fn test_process_state_try_reschedule_after_timeout() {
    let mut state = ProcessState::new();

    assert_eq!(state.try_reschedule_after_timeout(), RescheduleRights::Failed);

    state.waiting_for_future(None);

    assert_eq!(state.try_reschedule_after_timeout(), RescheduleRights::Acquired);
    assert!(!state.status().is_waiting());
    assert!(state.status().timeout_expired());

    state.waiting_for_future(Some(Timeout::with_rc(&Clock::new(), Duration::from_secs(0).as_nanos())));

    assert_eq!(state.try_reschedule_after_timeout(), RescheduleRights::AcquiredWithTimeout);
    assert!(!state.has_timeout());
}

#[test]
fn test_process_state_try_reschedule_for_message() {
    let mut state = ProcessState::new();

    assert_eq!(state.try_reschedule_for_message(), RescheduleRights::Failed);

    state.receive();

    assert!(state.status().is_waiting_for_message());
    assert_eq!(state.try_reschedule_for_message(), RescheduleRights::Acquired);
    assert!(!state.status().is_waiting_for_message());
}

#[test]
fn test_process_state_try_reschedule_for_future() {
    let mut state = ProcessState::new();

    assert_eq!(state.try_reschedule_for_future(), RescheduleRights::Failed);

    state.waiting_for_future(Some(Timeout::with_rc(&Clock::new(), Duration::from_secs(0).as_nanos())));

    assert_eq!(state.try_reschedule_for_future(), RescheduleRights::AcquiredWithTimeout);
    assert_eq!(state.status().is_waiting_for_future(), false);
}

#[test]
fn test_finish_generator() {
    let m = method("foo");
    let mut state = ProcessState::new();

    assert_eq!(state.finish_generator(), Finished::Terminate);

    state.add_client();

    assert_eq!(state.finish_generator(), Finished::WaitForMessage);
    assert!(state.status().is_waiting_for_message());

    assert_eq!(state.send(Message::new(&m, &[])), RescheduleRights::Acquired);
    assert_eq!(state.finish_generator(), Finished::Reschedule);
}

#[test]
fn test_future_write_and_get() {
    let mut future = FutureState::new();
    let mut consumer = ProcessState::new();
    let process = ServerPointer::new(Pointer::new(0x40));

    assert_eq!(future.get(process, &mut consumer, None), FutureResult::Pending);
    assert!(consumer.status().is_waiting_for_future());

    assert_eq!(future.write(Pointer::integer(1), false, &mut consumer), WriteResult::Reschedule(process));
    assert!(!consumer.status().is_waiting_for_future());

    assert_eq!(future.get(process, &mut consumer, None), FutureResult::Returned(Pointer::integer(1)));
}

#[test]
fn test_future_write_thrown_without_consumer() {
    let mut future = FutureState::new();
    let mut consumer = ProcessState::new();
    let process = ServerPointer::new(Pointer::new(0x40));

    assert_eq!(future.write(Pointer::integer(2), true, &mut consumer), WriteResult::Continue);
    assert_eq!(future.get(process, &mut consumer, None), FutureResult::Thrown(Pointer::integer(2)));
}

#[test]
fn test_future_write_disconnected() {
    let mut future = FutureState::new();
    let mut consumer = ProcessState::new();

    future.disconnect();

    assert_eq!(future.write(Pointer::integer(2), false, &mut consumer), WriteResult::Discard);
}

#[test]
fn test_server_resume_and_pop_generator() {
    let mut blocks = BlockAllocator::new();
    let mut alloc = BumpAllocator::new(&mut blocks);
    let class = ClassPointer::new(Pointer::new(0x10));
    let description = Class::process("A".to_string(), Vec::new(), 0);
    let (_, mut server) = Server::allocate(&mut alloc, &mut blocks, class, &description);
    let m = method("foo");
    let gen1 = Generator::allocate(&mut alloc, &mut blocks, class, ExecutionContext::for_method(&m));
    let gen2 = Generator::allocate(&mut alloc, &mut blocks, class, ExecutionContext::for_method(&m));

    server.resume_generator(gen1);
    server.resume_generator(gen2);

    assert!(server.generator().is_some());
    assert!(!server.pop_generator());
    assert!(server.pop_generator());
    assert!(server.generator().is_none());
}

#[test]
fn test_server_generator_to_run_with_message() {
    let mut blocks = BlockAllocator::new();
    let mut alloc = BumpAllocator::new(&mut blocks);
    let class = ClassPointer::new(Pointer::new(0x10));
    let m = method("foo");
    let mut description = Class::process("A".to_string(), Vec::new(), 1);

    description.set_method(MethodIndex::new(0), method("foo"));

    let (_, mut server) = Server::allocate(&mut alloc, &mut blocks, class, &description);

    assert!(server.generator_to_run(&mut alloc, &mut blocks, class).is_none());
    assert!(server.state().status().is_waiting_for_message());

    let rights = server.send_message(&description, MethodIndex::new(0), &[Pointer::integer(1)]);

    assert_eq!(rights, RescheduleRights::Acquired);

    let gen = server.generator_to_run(&mut alloc, &mut blocks, class);

    assert!(gen.is_some());
    let running = server.generator().unwrap();
    assert_eq!(running.context().get_register(0), Pointer::integer(1));
    assert_eq!(running.context().name(), "foo");
    let _ = m;
}

#[test]
fn test_server_fields_and_thread() {
    let mut blocks = BlockAllocator::new();
    let mut alloc = BumpAllocator::new(&mut blocks);
    let class = ClassPointer::new(Pointer::new(0x10));
    let description = Class::process("A".to_string(), vec!["@a".to_string(), "@b".to_string()], 0);
    let (_, mut server) = Server::allocate(&mut alloc, &mut blocks, class, &description);

    server.set_values(&[Pointer::integer(1), Pointer::integer(2)]);
    assert_eq!(server.get(FieldIndex::new(1)), Pointer::integer(2));

    server.set(FieldIndex::new(0), Pointer::integer(5));
    assert_eq!(server.get(FieldIndex::new(0)), Pointer::integer(5));

    assert_eq!(server.thread_id(), None);
    server.pin_to_thread(4);
    assert_eq!(server.thread_id(), Some(4));
    server.unpin_from_thread();
    assert_eq!(server.thread_id(), None);

    assert!(!server.is_main());
    server.set_main();
    assert!(server.is_main());

    server.set_blocking();
    assert!(server.is_blocking());
    server.no_longer_blocking();
    assert!(!server.is_blocking());
}

#[test]
fn test_client_allocate_counts_clients() {
    let mut blocks = BlockAllocator::new();
    let mut alloc = BumpAllocator::new(&mut blocks);
    let class = ClassPointer::new(Pointer::new(0x10));
    let server = ServerPointer::new(Pointer::new(0x40));
    let mut state = ProcessState::new();
    let (_, client) = Client::allocate(&mut alloc, &mut blocks, class, server, &mut state);

    assert_eq!(client.server(), server);
    assert_eq!(state.clients(), 1);

    state.remove_client();

    assert_eq!(state.clients(), 0);
}

#[test]
fn test_server_suspend_and_timeout_expired() {
    let mut blocks = BlockAllocator::new();
    let mut alloc = BumpAllocator::new(&mut blocks);
    let class = ClassPointer::new(Pointer::new(0x10));
    let description = Class::process("A".to_string(), Vec::new(), 0);
    let (_, mut server) = Server::allocate(&mut alloc, &mut blocks, class, &description);

    server.suspend(Timeout::with_rc(&Clock::new(), Duration::from_secs(0).as_nanos()));

    assert!(server.state().has_timeout());
    assert!(server.state().status().is_waiting());
    assert!(!server.timeout_expired());
}

/// Runs `callback` with a new process of the class `description`, and the
/// allocator the process was allocated with.
fn with_server<'a, F>(description: Class, callback: F)
where
    F: FnOnce(&mut BumpAllocator, &mut BlockAllocator, Server<'a>),
{
    let mut blocks = BlockAllocator::new();
    let mut alloc = BumpAllocator::new(&mut blocks);
    let class = ClassPointer::new(Pointer::new(0x10));
    let (_, server) = Server::allocate(&mut alloc, &mut blocks, class, &description);

    callback(&mut alloc, &mut blocks, server);
}

fn empty_process_class() -> Class {
    Class::process("A".to_string(), Vec::new(), 0)
}

fn generator_class() -> ClassPointer {
    ClassPointer::new(Pointer::new(0x20))
}

#[test]
fn test_message_new() {
    let m = method("foo");
    let message = Message::new(&m, &[Pointer::integer(1), Pointer::integer(2)]);

    assert!(std::ptr::eq(message.inner().method, &m));
    assert_eq!(message.inner().length, 2);
    assert_eq!(message.inner().arguments[0], Pointer::integer(1));
    assert_eq!(message.inner().arguments[1], Pointer::integer(2));
}

#[test]
fn process_test_mailbox_send_receive() {
    let m = method("foo");
    let message = Message::new(&m, &[Pointer::integer(1), Pointer::integer(2)]);
    let mut mailbox = Mailbox::new();

    mailbox.send(message);

    let message = mailbox.receive().unwrap();

    assert_eq!(message.inner().length, 2);
}

#[test]
fn test_process_state_waiting_for_future() {
    let mut state = ProcessState::new();
    let timeout = Timeout::with_rc(&Clock::new(), Duration::from_secs(0).as_nanos());

    state.waiting_for_future(None);

    assert!(state.status().is_waiting_for_future());
    assert!(!state.has_timeout());

    state.waiting_for_future(Some(timeout));

    assert!(state.status().is_waiting_for_future());
    assert!(state.has_timeout());
}

#[test]
fn test_server_new() {
    with_server(empty_process_class(), |_, _, server| {
        assert!(server.generator().is_none());
        assert!(server.thread_id().is_none());
        assert_eq!(server.state().clients(), 0);
    });
}

#[test]
fn test_server_set_main() {
    with_server(empty_process_class(), |_, _, mut server| {
        assert!(!server.is_main());

        server.set_main();
        assert!(server.is_main());
    });
}

#[test]
fn test_server_pin_thread() {
    with_server(empty_process_class(), |_, _, mut server| {
        assert_eq!(server.thread_id(), None);

        server.pin_to_thread(4);

        assert_eq!(server.thread_id(), Some(4));

        server.unpin_from_thread();

        assert_eq!(server.thread_id(), None);
    });
}

#[test]
fn test_server_set_blocking() {
    with_server(empty_process_class(), |_, _, mut server| {
        assert!(!server.is_blocking());

        server.set_blocking();
        assert!(server.is_blocking());

        server.no_longer_blocking();
        assert!(!server.is_blocking());
    });
}

#[test]
fn test_server_suspend() {
    with_server(empty_process_class(), |_, _, mut server| {
        let timeout = Timeout::with_rc(&Clock::new(), Duration::from_secs(0).as_nanos());

        server.suspend(timeout);

        assert!(server.state().has_timeout());
        assert!(server.state().status().is_waiting());
    });
}

#[test]
fn test_server_schedule_module_method() {
    let m = method("foo");

    with_server(empty_process_class(), |alloc, blocks, mut server| {
        server.schedule_module_method(alloc, blocks, generator_class(), &m);

        assert!(server.generator().is_some());
    });
}

#[test]
fn test_server_send_message() {
    let mut description = Class::process("A".to_string(), Vec::new(), 1);
    let index = MethodIndex::new(0);

    description.set_method(index, method("foo"));

    let mut blocks = BlockAllocator::new();
    let mut alloc = BumpAllocator::new(&mut blocks);
    let class = ClassPointer::new(Pointer::new(0x10));
    let (_, mut server) = Server::allocate(&mut alloc, &mut blocks, class, &description);

    server.send_message(&description, index, &[Pointer::integer(42)]);

    let state = server.state_mut();

    // The mailbox holds exactly the one message.
    assert_eq!(state.receive().unwrap().inner().length, 1);
    assert!(state.receive().is_none());
}

#[test]
fn test_server_generator_to_run_without_a_generator() {
    with_server(empty_process_class(), |alloc, blocks, mut server| {
        assert!(server.generator_to_run(alloc, blocks, generator_class()).is_none());
    });
}

#[test]
fn test_server_generator_to_run_waiting_server() {
    with_server(empty_process_class(), |alloc, blocks, mut server| {
        assert!(server.generator_to_run(alloc, blocks, generator_class()).is_none());
        assert!(server.state().status().is_waiting_for_message());
        assert!(!server.state().status().is_waiting());
    });
}

#[test]
fn test_server_generator_to_run_with_existing_generator() {
    let m = method("foo");

    with_server(empty_process_class(), |alloc, blocks, mut server| {
        let ctx = ExecutionContext::for_method(&m);
        let gen = Generator::allocate(alloc, blocks, generator_class(), ctx);
        let pointer = gen.pointer().as_pointer();

        server.resume_generator(gen);

        assert_eq!(
            server.generator_to_run(alloc, blocks, generator_class()).unwrap().as_pointer(),
            pointer
        );
    });
}

#[test]
fn test_server_finish_generator_without_pending_work() {
    with_server(empty_process_class(), |_, _, mut server| {
        assert_eq!(server.finish_generator(), Finished::Terminate);
    });
}

#[test]
fn test_server_finish_generator_with_clients() {
    with_server(empty_process_class(), |_, _, mut server| {
        server.state_mut().add_client();

        assert_eq!(server.finish_generator(), Finished::WaitForMessage);
        assert!(server.state().status().is_waiting_for_message());
    });
}

#[test]
fn test_server_finish_generator_with_messages() {
    let mut description = Class::process("A".to_string(), Vec::new(), 1);
    let index = MethodIndex::new(0);

    description.set_method(index, method("foo"));

    let mut blocks = BlockAllocator::new();
    let mut alloc = BumpAllocator::new(&mut blocks);
    let class = ClassPointer::new(Pointer::new(0x10));
    let (_, mut server) = Server::allocate(&mut alloc, &mut blocks, class, &description);

    server.send_message(&description, index, &[]);

    assert_eq!(server.finish_generator(), Finished::Reschedule);
}

#[test]
fn test_server_set_values() {
    let description =
        Class::process("A".to_string(), vec!["@a".to_string(), "@b".to_string()], 0);

    with_server(description, |_, _, mut server| {
        let idx0 = FieldIndex::new(0);
        let idx1 = FieldIndex::new(1);

        server.set_values(&[Pointer::integer(4), Pointer::integer(5)]);

        assert!(server.get(idx0) == Pointer::integer(4));
        assert!(server.get(idx1) == Pointer::integer(5));
    });
}

#[test]
fn test_server_get_set() {
    let description = Class::process("A".to_string(), vec!["@a".to_string()], 0);

    with_server(description, |_, _, mut server| {
        let idx = FieldIndex::new(0);

        server.set(idx, Pointer::integer(4));

        assert!(server.get(idx) == Pointer::integer(4));
    });
}

#[test]
fn test_server_timeout_expired() {
    with_server(empty_process_class(), |_, _, mut server| {
        let timeout = Timeout::with_rc(&Clock::new(), Duration::from_secs(0).as_nanos());

        assert!(!server.timeout_expired());

        server.suspend(timeout);

        assert!(!server.timeout_expired());
        assert!(!server.state().status().timeout_expired());
    });
}

#[test]
fn test_client_new_and_drop() {
    with_server(empty_process_class(), |alloc, blocks, mut server| {
        let class = ClassPointer::new(Pointer::new(0x10));
        let server_ptr = ServerPointer::new(Pointer::new(0x40));
        let (_, client) = Client::allocate(alloc, blocks, class, server_ptr, server.state_mut());

        assert_eq!(client.server(), server_ptr);
        assert_eq!(server.state().clients(), 1);

        Client::drop(client, server.state_mut());

        assert_eq!(server.state().clients(), 0);
    });
}

#[test]
fn test_future_write_without_consumer() {
    let mut future = FutureState::new();
    let mut consumer = ProcessState::new();
    let process = ServerPointer::new(Pointer::new(0x40));
    let result = future.write(Pointer::integer(42), false, &mut consumer);

    assert_eq!(result, WriteResult::Continue);
    assert_eq!(future.get(process, &mut consumer, None), FutureResult::Returned(Pointer::integer(42)));
}

#[test]
fn test_future_write_thrown() {
    let mut future = FutureState::new();
    let mut consumer = ProcessState::new();
    let process = ServerPointer::new(Pointer::new(0x40));
    let result = future.write(Pointer::integer(42), true, &mut consumer);

    assert_eq!(result, WriteResult::Continue);
    assert_eq!(future.get(process, &mut consumer, None), FutureResult::Thrown(Pointer::integer(42)));
}

#[test]
fn test_future_write_with_consumer() {
    let mut future = FutureState::new();
    let process = ServerPointer::new(Pointer::new(0x40));
    let mut reader = ProcessState::new();

    // The process becomes the consumer, but by the time of the write it is
    // no longer waiting for the future.
    future.get(process, &mut reader, None);

    let mut consumer = ProcessState::new();
    let result = future.write(Pointer::integer(42), false, &mut consumer);

    assert_eq!(result, WriteResult::Continue);
}

#[test]
fn test_future_write_with_waiting_consumer() {
    let mut future = FutureState::new();
    let process = ServerPointer::new(Pointer::new(0x40));
    let mut consumer = ProcessState::new();

    future.get(process, &mut consumer, None);

    let result = future.write(Pointer::integer(42), false, &mut consumer);

    assert_eq!(result, WriteResult::Reschedule(process));
}

#[test]
fn test_future_write_with_waiting_consumer_with_timeout() {
    let mut future = FutureState::new();
    let process = ServerPointer::new(Pointer::new(0x40));
    let mut consumer = ProcessState::new();
    let timeout = Timeout::with_rc(&Clock::new(), Duration::from_secs(0).as_nanos());

    future.get(process, &mut consumer, Some(timeout));

    let result = future.write(Pointer::integer(42), false, &mut consumer);

    assert_eq!(result, WriteResult::RescheduleWithTimeout(process));
    assert_eq!(consumer.status().is_waiting_for_future(), false);
    assert!(!consumer.has_timeout());
}

#[test]
fn test_future_get_without_result() {
    let mut future = FutureState::new();
    let process = ServerPointer::new(Pointer::new(0x40));
    let mut state = ProcessState::new();

    assert_eq!(future.get(process, &mut state, None), FutureResult::Pending);
    assert!(state.status().is_waiting_for_future());

    // The process is the consumer: a write reschedules it.
    assert_eq!(future.write(Pointer::integer(1), false, &mut state), WriteResult::Reschedule(process));
}

#[test]
fn test_future_get_without_result_with_timeout() {
    let mut future = FutureState::new();
    let process = ServerPointer::new(Pointer::new(0x40));
    let mut state = ProcessState::new();
    let timeout = Timeout::with_rc(&Clock::new(), Duration::from_secs(0).as_nanos());

    assert_eq!(future.get(process, &mut state, Some(timeout)), FutureResult::Pending);
    assert!(state.status().is_waiting_for_future());
    assert!(state.has_timeout());
}

#[test]
fn test_future_get_with_result() {
    let mut future = FutureState::new();
    let process = ServerPointer::new(Pointer::new(0x40));
    let mut state = ProcessState::new();
    let mut writer = ProcessState::new();
    let value = Pointer::integer(42);

    future.write(value, false, &mut writer);
    state.waiting_for_future(None);

    assert_eq!(future.get(process, &mut state, None), FutureResult::Returned(value));
    assert!(!state.status().is_waiting_for_future());
}

#[test]
fn test_future_get_with_thrown_result() {
    let mut future = FutureState::new();
    let process = ServerPointer::new(Pointer::new(0x40));
    let mut state = ProcessState::new();
    let mut writer = ProcessState::new();
    let value = Pointer::integer(42);

    future.write(value, true, &mut writer);
    state.waiting_for_future(None);

    assert_eq!(future.get(process, &mut state, None), FutureResult::Thrown(value));
    assert!(!state.status().is_waiting_for_future());
}

#[test]
fn test_future_drop() {
    let mut future = FutureState::new();
    let mut consumer = ProcessState::new();

    // Dropping the reader or the writer of a future disconnects it.
    future.disconnect();

    assert_eq!(future.write(Pointer::integer(1), false, &mut consumer), WriteResult::Discard);
}

#[test]
fn test_server_main() {
    let mut blocks = BlockAllocator::new();
    let mut alloc = BumpAllocator::new(&mut blocks);
    let class = ClassPointer::new(Pointer::new(0x10));
    let description = empty_process_class();
    let m = method("foo");
    let (_, server) =
        Server::main(&mut alloc, &mut blocks, class, &description, generator_class(), &m);

    assert!(server.is_main());
    assert_eq!(server.thread_id(), Some(0));
    assert_eq!(server.generator().unwrap().context().name(), "foo");
}
