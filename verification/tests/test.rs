use std::future::Future;
use std::mem::size_of;
use std::pin::Pin;
use std::task::{Context, Poll};

use dyn_utils::object::DynObject;
use dyn_utils::storage::{DefaultStorage, Storage};
use dyn_utils::try_sync::TrySync;
use dyn_utils::vtables::FutureVTable;
use futures::FutureExt;

type Destructor = fn(&mut [u8]);

type PollFn<T> = fn(&mut [u8]) -> Poll<T>;

type Table<T> = FutureVTable<Destructor, PollFn<T>>;

type Erased<T> = DynObject<'static, Table<T>, DefaultStorage>;

/// An erased computation, as a future.
struct DynFuture<T: 'static>(Erased<T>);

impl<T: 'static> Future for DynFuture<T> {
    type Output = T;

    fn poll(self: Pin<&mut Self>, _cx: &mut Context<'_>) -> Poll<T> {
        self.get_mut().0.poll()
    }
}

/// A result that may be there already, as a future.
struct TrySyncFuture<T: 'static>(TrySync<T, Erased<T>>);

impl<T: Unpin + 'static> Future for TrySyncFuture<T> {
    type Output = T;

    fn poll(self: Pin<&mut Self>, _cx: &mut Context<'_>) -> Poll<T> {
        self.get_mut().0.poll()
    }
}

fn no_destructor(_: &mut [u8]) {}

fn table<St, T: 'static>(poll: PollFn<T>) -> &'static Table<T> {
    std::boxed::Box::leak(std::boxed::Box::new(FutureVTable::new::<DefaultStorage, St>(
        no_destructor as Destructor,
        poll,
    )))
}

fn erase<St, T: 'static>(state: Vec<u8>, poll: PollFn<T>) -> Erased<T> {
    assert_eq!(state.len(), size_of::<St>());
    DynObject::new::<St>(state, table::<St, T>(poll))
}

/// The state of a computation that holds a short string.
struct Text {
    _len: usize,
    _bytes: [u8; 24],
}

fn text_state(s: &str) -> Vec<u8> {
    assert!(s.len() <= 24);
    let mut state = s.len().to_ne_bytes().to_vec();
    state.extend_from_slice(s.as_bytes());
    state.resize(size_of::<Text>(), 0);
    state
}

fn poll_text(state: &mut [u8]) -> Poll<String> {
    let (len, bytes) = state.split_at(size_of::<usize>());
    let len = usize::from_ne_bytes(len.try_into().unwrap());
    Poll::Ready(String::from_utf8(bytes[..len].to_vec()).unwrap())
}

fn poll_usize(state: &mut [u8]) -> Poll<usize> {
    Poll::Ready(usize::from_ne_bytes((&*state).try_into().unwrap()))
}

fn poll_unit(state: &mut [u8]) -> Poll<()> {
    assert!(state.is_empty());
    Poll::Ready(())
}

/// The interface, in the form that can be used behind `dyn`: what returned
/// `impl Future` returns an erased computation.
trait Test2 {
    type Result;
    fn method(&self) -> Self::Result;
    fn future(&self, s: &str) -> DynFuture<String>;
    fn future_try_sync(&self, s: &str) -> TrySyncFuture<String>;
    fn future2(&self, s: &str) -> DynFuture<String>;
    fn future2_try_sync(&self, s: &str) -> TrySyncFuture<String>;
    fn future_send(&self, s: &str) -> DynFuture<usize>;
    fn empty(&self) -> DynFuture<()>;
    fn empty_try_sync(&self) -> TrySyncFuture<()>;
}

impl Test2 for () {
    type Result = usize;

    fn method(&self) -> Self::Result {
        42
    }

    fn future(&self, s: &str) -> DynFuture<String> {
        DynFuture(erase::<Text, String>(text_state(s), poll_text))
    }

    fn future_try_sync(&self, s: &str) -> TrySyncFuture<String> {
        TrySyncFuture(TrySync::Async(self.future(s).0))
    }

    fn future2(&self, s: &str) -> DynFuture<String> {
        DynFuture(erase::<Text, String>(text_state(s), poll_text))
    }

    fn future2_try_sync(&self, s: &str) -> TrySyncFuture<String> {
        TrySyncFuture(TrySync::Sync(s.to_string()))
    }

    fn future_send(&self, s: &str) -> DynFuture<usize> {
        DynFuture(erase::<usize, usize>(s.len().to_ne_bytes().to_vec(), poll_usize))
    }

    fn empty(&self) -> DynFuture<()> {
        DynFuture(erase::<(), ()>(Vec::new(), poll_unit))
    }

    fn empty_try_sync(&self) -> TrySyncFuture<()> {
        TrySyncFuture(TrySync::Async(self.empty().0))
    }
}

fn assert_send<T: Send>(_: &T) {}

#[test]
fn test() {
    let test = std::boxed::Box::new(()) as std::boxed::Box<dyn Test2<Result = usize>>;
    test.empty().now_or_never().unwrap();
    test.empty_try_sync().now_or_never().unwrap();
    assert_eq!(test.method(), 42);
    assert_eq!(test.future("test").now_or_never().as_deref(), Some("test"));
    assert_eq!(test.future_try_sync("test").now_or_never().as_deref(), Some("test"));
    assert_eq!(test.future2("test").now_or_never().as_deref(), Some("test"));
    assert_eq!(test.future2_try_sync("test").now_or_never().as_deref(), Some("test"));
    let future_send = test.future_send("test");
    assert_send(&future_send);
    assert_eq!(future_send.now_or_never(), Some(4));
}

#[test]
fn erased_state_lives_inline_when_it_fits() {
    let inline = erase::<Text, String>(text_state("test"), poll_text);
    assert!(inline.storage().is_left());
    assert_eq!(inline.storage().ptr(), text_state("test"));
}
