use vstd::prelude::*;
use crate::seqs::{first_index_of, lemma_first_index_of, lemma_first_index_of_facts};
use crate::graphics::color::Color;
use crate::ffi::screen::VM_NO_TRANS_COLOR;

verus! {

/// Layer modes the platform knows.
#[derive(Debug, Clone, Copy, PartialEq, Eq, Structural)]
pub enum LayerMode {
    Base,
    Fast,
    Buffer,
    CreateCanvas,
}

impl LayerMode {
    /// The platform's code for this mode.
    pub fn to_mre(self) -> (res: i32)
        ensures
            res == match self {
                LayerMode::Base => 1i32,
                LayerMode::Fast => 2i32,
                LayerMode::Buffer => 3i32,
                LayerMode::CreateCanvas => 4i32,
            },
    {
        match self {
            LayerMode::Base => 1,
            LayerMode::Fast => 2,
            LayerMode::Buffer => 3,
            LayerMode::CreateCanvas => 4,
        }
    }
}

/// The transparent-colour argument of the platform's layer calls: the
/// colour's RGB565 value, or "none".
pub fn trans_color_value(trans_color: Option<Color>) -> (res: i32)
    ensures
        res == match trans_color {
            Some(c) => c.0 as i32,
            None => VM_NO_TRANS_COLOR,
        },
{
    match trans_color {
        Some(c) => c.0 as i32,
        None => VM_NO_TRANS_COLOR,
    }
}

/// A drawing layer of the platform, by handle, with the size it was made with.
pub struct Layer {
    handle: i32,
    width: i32,
    height: i32,
}

impl Layer {
    pub closed spec fn spec_handle(&self) -> i32 {
        self.handle
    }

    pub closed spec fn spec_width(&self) -> i32 {
        self.width
    }

    pub closed spec fn spec_height(&self) -> i32 {
        self.height
    }

    /// A layer of the given size, from the handle the platform's create call
    /// returned: a negative handle is the error.
    pub fn create(handle: i32, width: i32, height: i32) -> (res: Result<Layer, i32>)
        ensures
            handle < 0 ==> res == Err::<Layer, i32>(handle),
            handle >= 0 ==> (res matches Ok(l) && l.spec_handle() == handle && l.spec_width() == width
                && l.spec_height() == height),
    {
        if handle < 0 {
            Err(handle)
        } else {
            Ok(Layer { handle, width, height })
        }
    }

    pub fn width(&self) -> (res: i32)
        ensures
            res == self.spec_width(),
    {
        self.width
    }

    pub fn height(&self) -> (res: i32)
        ensures
            res == self.spec_height(),
    {
        self.height
    }

    pub fn handle(&self) -> (res: i32)
        ensures
            res == self.spec_handle(),
    {
        self.handle
    }

    /// Records the outcome of resizing: on success (status 0) the layer takes the new size.
    pub fn resize(&mut self, status: i32, width: i32, height: i32) -> (res: Result<(), i32>)
        ensures
            final(self).spec_handle() == old(self).spec_handle(),
            status == 0 ==> res is Ok && final(self).spec_width() == width && final(self).spec_height() == height,
            status != 0 ==> res == Err::<(), i32>(status) && final(self).spec_width() == old(self).spec_width()
                && final(self).spec_height() == old(self).spec_height(),
    {
        if status == 0 {
            self.width = width;
            self.height = height;
            Ok(())
        } else {
            Err(status)
        }
    }

    /// The layer's position and size `(x, y, width, height)` as the
    /// platform reported them, when its query succeeded (status 0).
    pub fn position(&self, status: i32, x: i32, y: i32, w: i32, h: i32) -> (res: Result<(i32, i32, i32, i32), i32>)
        ensures
            status == 0 ==> res == Ok::<(i32, i32, i32, i32), i32>((x, y, w, h)),
            status != 0 ==> res == Err::<(i32, i32, i32, i32), i32>(status),
    {
        if status == 0 {
            Ok((x, y, w, h))
        } else {
            Err(status)
        }
    }
}

/// The outcome of moving a layer or switching its alpha blending, from the
/// platform's status: 0 is success, anything else the error.
pub fn layer_status(status: i32) -> (res: Result<(), i32>)
    ensures
        status == 0 ==> res is Ok,
        status != 0 ==> res == Err::<(), i32>(status),
{
    if status == 0 {
        Ok(())
    } else {
        Err(status)
    }
}

/// The opacity handed to the platform: the percentage, at most 100.
pub fn opacity_percent(percent: u8) -> (res: i32)
    ensures
        res == (if percent > 100 { 100 } else { percent as i32 }),
{
    if percent > 100 {
        100
    } else {
        percent as i32
    }
}

/// The handles of the layers to flush, in order.
pub fn layer_handles(layers: &[&Layer]) -> (res: Vec<i32>)
    ensures
        res@.len() == layers@.len(),
        forall|i: int| 0 <= i < layers@.len() ==> res@[i] == layers@[i].spec_handle(),
{
    let mut handles: Vec<i32> = Vec::new();
    let mut i: usize = 0;
    while i < layers.len()
        invariant
            i <= layers@.len(),
            handles@.len() == i,
            forall|k: int| 0 <= k < i ==> handles@[k] == layers@[k].spec_handle(),
        decreases layers@.len() - i,
    {
        handles.push(layers[i].handle());
        i = i + 1;
    }
    handles
}

/// Pops, from the top of `stack`, every handle that is waiting in `zombies`:
/// the remaining stack, the remaining zombies, and the popped handles in order.
pub open spec fn spec_collapse(stack: Seq<i32>, zombies: Seq<i32>) -> (Seq<i32>, Seq<i32>, Seq<i32>)
    decreases stack.len(),
{
    if stack.len() > 0 && first_index_of(zombies, stack.last()) >= 0 {
        let top = stack.last();
        let r = spec_collapse(stack.drop_last(), zombies.remove(first_index_of(zombies, top)));
        (r.0, r.1, seq![top] + r.2)
    } else {
        (stack, zombies, seq![])
    }
}

/// Releasing `h`: if it is on top of the stack it is deleted, together with
/// every released handle that it was covering; otherwise it waits as a zombie.
pub open spec fn spec_release(stack: Seq<i32>, zombies: Seq<i32>, h: i32) -> (Seq<i32>, Seq<i32>, Seq<i32>) {
    if stack.len() > 0 && stack.last() == h {
        let r = spec_collapse(stack.drop_last(), zombies);
        (r.0, r.1, seq![h] + r.2)
    } else {
        (stack, zombies.push(h), seq![])
    }
}

/// The platform deletes layers from the top only. This keeps the handles
/// of live layers in creation order and the handles released out of order.
pub struct LayerStack {
    stack: Option<Vec<i32>>,
    zombies: Vec<i32>,
}

impl LayerStack {
    /// True once a layer was created.
    pub closed spec fn started(&self) -> bool {
        self.stack is Some
    }

    /// Handles of live layers, oldest first.
    pub closed spec fn spec_stack(&self) -> Seq<i32> {
        match self.stack {
            Some(s) => s@,
            None => Seq::empty(),
        }
    }

    /// Handles released while a newer layer was still alive.
    pub closed spec fn spec_zombies(&self) -> Seq<i32> {
        self.zombies@
    }

    /// No layer yet.
    pub fn new() -> (res: Self)
        ensures
            !res.started(),
            res.spec_stack() == Seq::<i32>::empty(),
            res.spec_zombies() == Seq::<i32>::empty(),
    {
        LayerStack { stack: None, zombies: Vec::new() }
    }

    /// Records a newly created layer.
    pub fn push(&mut self, handle: i32)
        ensures
            final(self).started(),
            final(self).spec_stack() == old(self).spec_stack().push(handle),
            final(self).spec_zombies() == old(self).spec_zombies(),
    {
        match self.stack.take() {
            Some(mut s) => {
                s.push(handle);
                self.stack = Some(s);
            },
            None => {
                let mut s: Vec<i32> = Vec::new();
                s.push(handle);
                self.stack = Some(s);
            },
        }
    }

    /// Records that the layer `handle` is no longer used and returns the
    /// handles to delete now, in the order to delete them. Before any layer
    /// was created this does nothing.
    pub fn release(&mut self, handle: i32) -> (res: Vec<i32>)
        ensures
            final(self).started() == old(self).started(),
            !old(self).started() ==> res@ == Seq::<i32>::empty() && final(self).spec_stack() == old(self).spec_stack()
                && final(self).spec_zombies() == old(self).spec_zombies(),
            old(self).started() ==> ({
                let r = spec_release(old(self).spec_stack(), old(self).spec_zombies(), handle);
                &&& final(self).spec_stack() == r.0
                &&& final(self).spec_zombies() == r.1
                &&& res@ == r.2
            }),
    {
        let mut deleted: Vec<i32> = Vec::new();
        let mut stack = match self.stack.take() {
            Some(s) => s,
            None => return deleted,
        };
        let n = stack.len();
        if n > 0 && stack[n - 1] == handle {
            stack.pop();
            deleted.push(handle);
            let ghost s0 = stack@;
            let ghost z0 = self.zombies@;
            loop
                invariant_except_break
                    spec_collapse(s0, z0) == ({
                        let r = spec_collapse(stack@, self.zombies@);
                        (r.0, r.1, deleted@.drop_first() + r.2)
                    }),
                    deleted@.len() >= 1,
                    deleted@[0] == handle,
                ensures
                    spec_collapse(s0, z0) == (stack@, self.zombies@, deleted@.drop_first()),
                    deleted@.len() >= 1,
                    deleted@[0] == handle,
                decreases stack@.len(),
            {
                let len = stack.len();
                if len == 0 {
                    assert(deleted@.drop_first() + Seq::<i32>::empty() =~= deleted@.drop_first());
                    break;
                }
                let top = stack[len - 1];
                match self.position_of(top) {
                    Some(pos) => {
                        let ghost old_deleted = deleted@;
                        self.zombies.remove(pos);
                        stack.pop();
                        deleted.push(top);
                        assert(deleted@.drop_first() =~= old_deleted.drop_first() + seq![top]);
                        assert(forall|a: Seq<i32>, b: Seq<i32>, c: Seq<i32>| (a + b) + c =~= a + (b + c));
                    },
                    None => {
                        assert(deleted@.drop_first() + Seq::<i32>::empty() =~= deleted@.drop_first());
                        break;
                    },
                }
            }
            assert(seq![handle] + deleted@.drop_first() =~= deleted@);
        } else {
            self.zombies.push(handle);
        }
        self.stack = Some(stack);
        deleted
    }

    /// Position of the first zombie equal to `h`.
    fn position_of(&self, h: i32) -> (res: Option<usize>)
        ensures
            match res {
                Some(p) => p as int == first_index_of(self.zombies@, h) && p < self.zombies@.len(),
                None => first_index_of(self.zombies@, h) < 0,
            },
    {
        let mut i: usize = 0;
        while i < self.zombies.len()
            invariant
                i <= self.zombies@.len(),
                forall|k: int| 0 <= k < i ==> self.zombies@[k] != h,
            decreases self.zombies@.len() - i,
        {
            if self.zombies[i] == h {
                proof {
                    lemma_first_index_of(self.zombies@, h, i as int);
                }
                return Some(i);
            }
            i = i + 1;
        }
        proof {
            lemma_first_index_of(self.zombies@, h, -1);
        }
        None
    }
}

/// Handles leave the stack from the top only, and are deleted in the order
/// they leave: the old stack is the new stack followed by the deleted
/// handles, last deleted first.
pub proof fn lemma_collapse_pops_from_top(stack: Seq<i32>, zombies: Seq<i32>)
    ensures
        stack == spec_collapse(stack, zombies).0 + spec_collapse(stack, zombies).2.reverse(),
    decreases stack.len(),
{
    if stack.len() > 0 && first_index_of(zombies, stack.last()) >= 0 {
        let top = stack.last();
        let z = zombies.remove(first_index_of(zombies, top));
        lemma_collapse_pops_from_top(stack.drop_last(), z);
        let r = spec_collapse(stack.drop_last(), z);
        assert((seq![top] + r.2).reverse() =~= r.2.reverse() + seq![top]);
        assert(stack =~= stack.drop_last() + seq![top]);
        assert(stack =~= r.0 + (seq![top] + r.2).reverse());
    } else {
        assert(stack =~= stack + Seq::<i32>::empty().reverse());
    }
}

/// Releasing the newest live layer deletes it first, then the layers it was
/// covering in turn, newest first; the rest of the stack stays in place.
pub proof fn lemma_release_top(stack: Seq<i32>, zombies: Seq<i32>, h: i32)
    requires
        stack.len() > 0,
        stack.last() == h,
    ensures
        spec_release(stack, zombies, h).2.len() >= 1,
        spec_release(stack, zombies, h).2[0] == h,
        stack == spec_release(stack, zombies, h).0 + spec_release(stack, zombies, h).2.reverse(),
{
    let r = spec_collapse(stack.drop_last(), zombies);
    lemma_collapse_pops_from_top(stack.drop_last(), zombies);
    assert((seq![h] + r.2).reverse() =~= r.2.reverse() + seq![h]);
    assert(stack =~= stack.drop_last() + seq![h]);
    assert(stack =~= r.0 + (seq![h] + r.2).reverse());
}

/// Releasing a layer that is not the newest live one deletes nothing and
/// keeps it waiting.
pub proof fn lemma_release_not_top(stack: Seq<i32>, zombies: Seq<i32>, h: i32)
    requires
        !(stack.len() > 0 && stack.last() == h),
    ensures
        spec_release(stack, zombies, h) == (stack, zombies.push(h), Seq::<i32>::empty()),
{
}

/// The layer stack is consistent: live handles and waiting handles are
/// each distinct, every waiting handle is live, and the newest live layer
/// is not waiting (it would have been deleted).
pub open spec fn stack_wf(stack: Seq<i32>, zombies: Seq<i32>) -> bool {
    &&& stack.no_duplicates()
    &&& zombies.no_duplicates()
    &&& forall|i: int| 0 <= i < zombies.len() ==> stack.contains(#[trigger] zombies[i])
    &&& stack.len() > 0 ==> !zombies.contains(stack.last())
}

/// Removing the element at `i` from a sequence without repeats keeps the
/// others and only them.
proof fn lemma_remove_distinct(z: Seq<i32>, i: int, x: i32)
    requires
        z.no_duplicates(),
        0 <= i < z.len(),
    ensures
        z.remove(i).no_duplicates(),
        z.remove(i).contains(x) <==> (z.contains(x) && x != z[i]),
{
    let r = z.remove(i);
    assert forall|a: int, b: int| 0 <= a < b < r.len() implies r[a] != r[b] by {
        let a2 = if a < i { a } else { a + 1 };
        let b2 = if b < i { b } else { b + 1 };
        assert(r[a] == z[a2] && r[b] == z[b2]);
    }
    if r.contains(x) {
        let k = choose|k: int| 0 <= k < r.len() && r[k] == x;
        let k2 = if k < i { k } else { k + 1 };
        assert(z[k2] == x);
    }
    if z.contains(x) && x != z[i] {
        let k = choose|k: int| 0 <= k < z.len() && z[k] == x;
        if k < i {
            assert(r[k] == x);
        } else {
            assert(r[k - 1] == x);
        }
    }
}

/// Collapsing a consistent stack leaves a consistent stack whose top is not waiting.
proof fn lemma_collapse_wf(stack: Seq<i32>, zombies: Seq<i32>)
    requires
        stack.no_duplicates(),
        zombies.no_duplicates(),
        forall|i: int| 0 <= i < zombies.len() ==> stack.contains(#[trigger] zombies[i]),
    ensures
        stack_wf(spec_collapse(stack, zombies).0, spec_collapse(stack, zombies).1),
    decreases stack.len(),
{
    lemma_first_index_of_facts(zombies, if stack.len() > 0 { stack.last() } else { 0 });
    if stack.len() > 0 && first_index_of(zombies, stack.last()) >= 0 {
        let top = stack.last();
        let idx = first_index_of(zombies, top);
        let z = zombies.remove(idx);
        let s = stack.drop_last();
        assert(s.no_duplicates());
        assert forall|i: int| 0 <= i < z.len() implies s.contains(#[trigger] z[i]) by {
            lemma_remove_distinct(zombies, idx, z[i]);
            assert(z.contains(z[i]));
            let k = choose|k: int| 0 <= k < zombies.len() && zombies[k] == z[i];
            assert(stack.contains(zombies[k]));
            let m = choose|m: int| 0 <= m < stack.len() && stack[m] == z[i];
            assert(m != stack.len() - 1);
            assert(s[m] == z[i]);
        }
        lemma_remove_distinct(zombies, idx, 0);
        lemma_collapse_wf(s, z);
    } else if stack.len() > 0 {
        assert(!zombies.contains(stack.last()));
    }
}

/// Creating a layer whose handle is not live keeps the stack consistent.
pub proof fn lemma_push_keeps_wf(stack: Seq<i32>, zombies: Seq<i32>, h: i32)
    requires
        stack_wf(stack, zombies),
        !stack.contains(h),
    ensures
        stack_wf(stack.push(h), zombies),
{
    let s = stack.push(h);
    assert forall|a: int, b: int| 0 <= a < b < s.len() implies s[a] != s[b] by {
        if b == s.len() - 1 {
            assert(stack.contains(s[a]));
        }
    }
    assert forall|i: int| 0 <= i < zombies.len() implies s.contains(#[trigger] zombies[i]) by {
        assert(stack.contains(zombies[i]));
        let m = choose|m: int| 0 <= m < stack.len() && stack[m] == zombies[i];
        assert(s[m] == zombies[i]);
    }
    if zombies.contains(h) {
        let k = choose|k: int| 0 <= k < zombies.len() && zombies[k] == h;
        assert(stack.contains(zombies[k]));
    }
}

/// Releasing a live layer that is not waiting yet keeps the stack consistent.
pub proof fn lemma_release_keeps_wf(stack: Seq<i32>, zombies: Seq<i32>, h: i32)
    requires
        stack_wf(stack, zombies),
        stack.contains(h),
        !zombies.contains(h),
    ensures
        stack_wf(spec_release(stack, zombies, h).0, spec_release(stack, zombies, h).1),
{
    if stack.len() > 0 && stack.last() == h {
        let s = stack.drop_last();
        assert forall|i: int| 0 <= i < zombies.len() implies s.contains(#[trigger] zombies[i]) by {
            assert(stack.contains(zombies[i]));
            let m = choose|m: int| 0 <= m < stack.len() && stack[m] == zombies[i];
            assert(zombies.contains(zombies[i]));
            assert(m != stack.len() - 1);
            assert(s[m] == zombies[i]);
        }
        lemma_collapse_wf(s, zombies);
    } else {
        let z = zombies.push(h);
        assert forall|a: int, b: int| 0 <= a < b < z.len() implies z[a] != z[b] by {
            if b == z.len() - 1 {
                assert(zombies.contains(z[a]));
            }
        }
        assert forall|i: int| 0 <= i < z.len() implies stack.contains(#[trigger] z[i]) by {
            if i < zombies.len() {
                assert(z[i] == zombies[i]);
            }
        }
        if stack.len() > 0 {
            if z.contains(stack.last()) {
                let k = choose|k: int| 0 <= k < z.len() && z[k] == stack.last();
                if k < zombies.len() {
                    assert(zombies[k] == stack.last());
                }
            }
        }
    }
}

/// A stack whose every live layer waits collapses completely.
proof fn lemma_collapse_all(stack: Seq<i32>, zombies: Seq<i32>)
    requires
        stack.no_duplicates(),
        zombies.no_duplicates(),
        forall|i: int| 0 <= i < zombies.len() ==> stack.contains(#[trigger] zombies[i]),
        forall|i: int| 0 <= i < stack.len() ==> zombies.contains(#[trigger] stack[i]),
    ensures
        spec_collapse(stack, zombies).0.len() == 0,
        spec_collapse(stack, zombies).1.len() == 0,
    decreases stack.len(),
{
    if stack.len() == 0 {
        if zombies.len() > 0 {
            assert(stack.contains(zombies[0]));
        }
    } else {
        let top = stack.last();
        assert(zombies.contains(stack[stack.len() - 1]));
        lemma_first_index_of_facts(zombies, top);
        let idx = first_index_of(zombies, top);
        let z = zombies.remove(idx);
        let s = stack.drop_last();
        assert forall|i: int| 0 <= i < z.len() implies s.contains(#[trigger] z[i]) by {
            lemma_remove_distinct(zombies, idx, z[i]);
            assert(z.contains(z[i]));
            let k = choose|k: int| 0 <= k < zombies.len() && zombies[k] == z[i];
            assert(stack.contains(zombies[k]));
            let m = choose|m: int| 0 <= m < stack.len() && stack[m] == z[i];
            assert(m != stack.len() - 1);
            assert(s[m] == z[i]);
        }
        assert forall|i: int| 0 <= i < s.len() implies z.contains(#[trigger] s[i]) by {
            assert(stack[i] == s[i]);
            assert(zombies.contains(stack[i]));
            assert(s[i] != top);
            lemma_remove_distinct(zombies, idx, s[i]);
        }
        lemma_remove_distinct(zombies, idx, 0);
        lemma_collapse_all(s, z);
    }
}

/// Once every live layer has been released, whatever the order, the last
/// release deletes all of them: the stack and the waiting list end empty.
pub proof fn lemma_last_release_empties(stack: Seq<i32>, zombies: Seq<i32>, h: i32)
    requires
        stack_wf(stack, zombies),
        stack.contains(h),
        !zombies.contains(h),
        forall|i: int| 0 <= i < stack.len() && stack[i] != h ==> zombies.contains(#[trigger] stack[i]),
    ensures
        spec_release(stack, zombies, h).0.len() == 0,
        spec_release(stack, zombies, h).1.len() == 0,
{
    assert(stack.len() > 0);
    let top = stack.last();
    assert(stack[stack.len() - 1] == top);
    assert(top == h);
    let s = stack.drop_last();
    assert forall|i: int| 0 <= i < zombies.len() implies s.contains(#[trigger] zombies[i]) by {
        assert(stack.contains(zombies[i]));
        let m = choose|m: int| 0 <= m < stack.len() && stack[m] == zombies[i];
        assert(zombies.contains(zombies[i]));
        assert(m != stack.len() - 1);
        assert(s[m] == zombies[i]);
    }
    assert forall|i: int| 0 <= i < s.len() implies zombies.contains(#[trigger] s[i]) by {
        assert(stack[i] == s[i]);
        assert(s[i] != h);
    }
    lemma_collapse_all(s, zombies);
}

} // verus!
