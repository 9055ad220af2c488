use aqueue::{RefMutInner, RwModel, RwQueue};
use std::sync::atomic::{AtomicBool, AtomicUsize, Ordering};
use std::sync::Arc;
use std::time::Duration;

fn runtime() -> tokio::runtime::Runtime {
    tokio::runtime::Builder::new_multi_thread().enable_all().build().unwrap()
}

/// Blocks the calling thread for `d`: a receive that no message ends.
fn pause(d: Duration) {
    let (_keep, rx) = std::sync::mpsc::channel::<()>();
    let _ = rx.recv_timeout(d);
}

#[test]
fn test_rw_test_base() {
    let rt = runtime();
    let queue = Arc::new(RwQueue::new());

    let a_queue = queue.clone();
    let first = rt.spawn_blocking(move || {
        let mut unit = ();
        a_queue.sync_write_run(|_| 1, RefMutInner::new(&mut unit))
    });
    assert_eq!(rt.block_on(first).unwrap(), 1);

    let a_queue = queue.clone();
    let second = rt.spawn_blocking(move || {
        for i in 0..100u64 {
            assert_eq!(a_queue.sync_read_run(|x| x, i), i);
        }
    });
    rt.block_on(second).unwrap();

    let mut total = 0u64;
    let mut v = 0u64;
    for mut i in 0..10000000u64 {
        v = queue.sync_write_run(
            |x: RefMutInner<'_, u64>| {
                total += *x;
                total
            },
            RefMutInner::new(&mut i),
        );
    }
    assert_eq!(v, 49999995000000);
}

#[test]
fn test_rw_test_string() {
    let queue = Arc::new(RwQueue::new());
    let str = 12345.to_string();
    let len = queue.sync_read_run(|x: &String| x.len(), &str);
    assert_eq!(len, 5);
    struct Foo {
        i: i32,
    }
    let foo = Foo { i: 5 };
    let len = queue.sync_read_run(|x: &Foo| x.i, &foo);
    assert_eq!(len, 5);
}

#[derive(Default)]
struct Foo {
    i: i32,
    x: i32,
    y: i32,
}

impl Foo {
    fn get(&self) -> (i32, i32, i32) {
        (self.i, self.x, self.y)
    }

    fn set(&mut self, x: i32, y: i32) -> i32 {
        self.x += x;
        self.y += y;
        pause(Duration::from_millis(1));
        self.i += 1;
        self.i
    }
}

#[test]
fn test_rw_test_actor() {
    let rt = runtime();
    let a_foo = Arc::new(RwModel::new(Foo::default()));
    let b_foo = a_foo.clone();
    let b = rt.spawn_blocking(move || {
        for i in 0..100 {
            b_foo.sync_mut_call(|mut inner: RefMutInner<'_, Foo>| inner.set(i - 1, i + 1));
        }
    });
    let c_foo = a_foo.clone();
    let c = rt.spawn_blocking(move || {
        for i in 0..100 {
            c_foo.sync_mut_call(|mut inner: RefMutInner<'_, Foo>| inner.set(i - 1, i + 1));
        }
    });
    for i in 200..300 {
        a_foo.sync_mut_call(|mut inner: RefMutInner<'_, Foo>| inner.set(i - 1, i + 1));
    }
    rt.block_on(b).unwrap();
    rt.block_on(c).unwrap();
    assert_eq!((300, 34550, 35150), a_foo.sync_call(|inner: &Foo| inner.get()));

    let buff = vec![1, 2, 3, 4, 5];
    let x = a_foo.sync_call(|_: &Foo| buff[..].len());
    assert_eq!(buff.len(), x);
}

struct Value {
    value: i64,
}

#[test]
fn reads_never_see_a_half_applied_write() {
    let rt = runtime();
    let base = 1000i64;
    let model = Arc::new(RwModel::new(Value { value: base }));
    let done = Arc::new(AtomicBool::new(false));
    let mut readers = vec![];
    for _ in 0..3 {
        let m = model.clone();
        let d = done.clone();
        readers.push(rt.spawn_blocking(move || {
            let mut seen = vec![];
            while !d.load(Ordering::SeqCst) {
                seen.push(m.sync_call(|s: &Value| s.value));
            }
            seen
        }));
    }
    let writer = {
        let m = model.clone();
        rt.spawn_blocking(move || {
            for _ in 0..10 {
                m.sync_mut_call(|mut s: RefMutInner<'_, Value>| {
                    s.get_mut().value += 2;
                    pause(Duration::from_millis(2));
                    s.get_mut().value += 3;
                });
                pause(Duration::from_millis(1));
            }
        })
    };
    rt.block_on(writer).unwrap();
    done.store(true, Ordering::SeqCst);
    for r in readers {
        for v in rt.block_on(r).unwrap() {
            assert_eq!((v - base) % 5, 0);
            assert!(v >= base && v <= base + 50);
        }
    }
    assert_eq!(model.sync_call(|s: &Value| s.value), base + 50);
}

#[test]
fn writes_never_overlap_anything() {
    let rt = runtime();
    let model = Arc::new(RwModel::new(0u32));
    let active_readers = Arc::new(AtomicUsize::new(0));
    let writing = Arc::new(AtomicBool::new(false));
    let mut handles = vec![];
    for t in 0..6 {
        let m = model.clone();
        let r = active_readers.clone();
        let w = writing.clone();
        handles.push(rt.spawn_blocking(move || {
            for _ in 0..30 {
                if t % 2 == 0 {
                    m.sync_mut_call(|mut s: RefMutInner<'_, u32>| {
                        assert!(!w.swap(true, Ordering::SeqCst));
                        assert_eq!(r.load(Ordering::SeqCst), 0);
                        pause(Duration::from_micros(100));
                        *s += 1;
                        w.store(false, Ordering::SeqCst);
                    });
                } else {
                    m.sync_call(|_: &u32| {
                        r.fetch_add(1, Ordering::SeqCst);
                        assert!(!w.load(Ordering::SeqCst));
                        pause(Duration::from_micros(100));
                        r.fetch_sub(1, Ordering::SeqCst);
                    });
                }
            }
        }));
    }
    for h in handles {
        rt.block_on(h).unwrap();
    }
    assert_eq!(model.sync_call(|s: &u32| *s), 90);
}

#[test]
fn reads_may_overlap() {
    let rt = runtime();
    let model = Arc::new(RwModel::new(7u8));
    let barrier = Arc::new(std::sync::Barrier::new(2));
    let mut handles = vec![];
    for _ in 0..2 {
        let m = model.clone();
        let b = barrier.clone();
        handles.push(rt.spawn_blocking(move || {
            m.sync_call(|s: &u8| {
                b.wait();
                *s
            })
        }));
    }
    for h in handles {
        assert_eq!(rt.block_on(h).unwrap(), 7);
    }
}

#[test]
fn rw_model_never_called_shows_initial_value() {
    let mut model = RwModel::new(String::from("v"));
    assert_eq!(*model.deref_inner(), "v");
    assert_eq!(model.sync_call(|s: &String| s.clone()), "v");
}

#[test]
fn rw_write_result_comes_back() {
    let model = RwModel::new(vec![1u8, 2]);
    let r = model.sync_mut_call(|mut s: RefMutInner<'_, Vec<u8>>| {
        s.push(3);
        s.iter().map(|b| *b as u32).sum::<u32>()
    });
    assert_eq!(r, 6);
    assert_eq!(model.sync_call(|s: &Vec<u8>| s.clone()), vec![1, 2, 3]);
}

#[test]
fn default_rw_queue_and_model() {
    let q = RwQueue::default();
    assert_eq!(q.sync_read_run(|x: &str| x.len(), "abc"), 3);
    let m: RwModel<u32> = RwModel::default();
    assert_eq!(m.sync_call(|s: &u32| *s), 0);
}

#[test]
fn write_run_leaves_its_writes_in_the_state() {
    let q = RwQueue::new();
    let mut s = 10i64;
    let r = q.sync_write_run(
        |mut x: RefMutInner<'_, i64>| {
            *x.get_mut() += 5;
            *x
        },
        RefMutInner::new(&mut s),
    );
    assert_eq!(r, 15);
    assert_eq!(s, 15);
    let mut t = 4i64;
    q.sync_write_run(|_: RefMutInner<'_, i64>| (), RefMutInner::new(&mut t));
    assert_eq!(t, 4);
}
