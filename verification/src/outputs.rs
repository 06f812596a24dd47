//! The displays (outputs) the overlay covers, each with the overlay surface
//! created for it. Outputs are identified by a key the runtime assigns (the
//! protocol id of the output); surfaces are whatever handle the runtime uses.
use vstd::prelude::*;

verus! {

/// Tracks an output and its associated layer surface
#[derive(Debug)]
pub struct OutputState<S> {
    pub output: u32,
    pub surface: S,
    pub name: Option<String>,
}

/// What an output entry holds, with its name as characters.
pub struct OutputView<S> {
    pub output: u32,
    pub surface: S,
    pub name: Option<Seq<char>>,
}

impl<S> View for OutputState<S> {
    type V = OutputView<S>;

    open spec fn view(&self) -> OutputView<S> {
        OutputView {
            output: self.output,
            surface: self.surface,
            name: match self.name {
                Some(n) => Some(n@),
                None => None,
            },
        }
    }
}

/// The outputs with their overlay surfaces, in the order they appeared.
#[derive(Debug)]
pub struct OutputSet<S> {
    pub outputs: Vec<OutputState<S>>,
}

pub open spec fn outputs_view<S>(v: Seq<OutputState<S>>) -> Seq<OutputView<S>> {
    v.map_values(|o: OutputState<S>| o@)
}

/// Index of the first entry for `output` (the number of entries if there is none).
pub open spec fn output_index<S>(os: Seq<OutputView<S>>, output: u32) -> int
    decreases os.len(),
{
    if os.len() == 0 {
        0
    } else if os[0].output == output {
        0
    } else {
        1 + output_index(os.drop_first(), output)
    }
}

/// Entries after the output `output` was removed: its first entry goes away.
pub open spec fn spec_remove<S>(os: Seq<OutputView<S>>, output: u32) -> Seq<OutputView<S>> {
    let i = output_index(os, output);
    if i < os.len() {
        os.remove(i)
    } else {
        os
    }
}

/// Entries after the name of `output` was updated.
pub open spec fn spec_rename<S>(os: Seq<OutputView<S>>, output: u32, name: Option<Seq<char>>) -> Seq<OutputView<S>> {
    let i = output_index(os, output);
    if i < os.len() {
        os.update(i, OutputView { name, ..os[i] })
    } else {
        os
    }
}

/// Index `j` holds the first entry for `output`.
pub open spec fn is_first_entry<S>(os: Seq<OutputView<S>>, output: u32, j: int) -> bool {
    &&& 0 <= j < os.len()
    &&& os[j].output == output
    &&& forall|k: int| 0 <= k < j ==> #[trigger] os[k].output != output
}

proof fn lemma_output_index<S>(os: Seq<OutputView<S>>, output: u32)
    ensures
        0 <= output_index(os, output) <= os.len(),
        forall|k: int| 0 <= k < output_index(os, output) ==> #[trigger] os[k].output != output,
        output_index(os, output) < os.len() ==> os[output_index(os, output)].output == output,
    decreases os.len(),
{
    if os.len() > 0 && os[0].output != output {
        lemma_output_index(os.drop_first(), output);
        assert forall|k: int| 0 <= k < output_index(os, output) implies #[trigger] os[k].output
            != output by {
            if k > 0 {
                assert(os[k] == os.drop_first()[k - 1]);
            }
        }
    }
}

proof fn lemma_is_first_entry<S>(os: Seq<OutputView<S>>, output: u32, j: int)
    ensures
        is_first_entry(os, output, j) <==> j == output_index(os, output) && j < os.len(),
{
    lemma_output_index(os, output);
    let i = output_index(os, output);
    if is_first_entry(os, output, j) && i < j {
        assert(os[i].output != output);
    }
}

/// Renaming an output changes only the name of its first entry; every other
/// entry stays as it was, and nothing changes when the output has no entry.
pub proof fn lemma_rename_changes_its_entry<S>(os: Seq<OutputView<S>>, output: u32, name: Option<Seq<char>>)
    ensures
        spec_rename(os, output, name).len() == os.len(),
        forall|j: int|
            0 <= j < os.len() ==> {
                let r = #[trigger] spec_rename(os, output, name)[j];
                &&& is_first_entry(os, output, j) ==> r == (OutputView { name, ..os[j] })
                &&& !is_first_entry(os, output, j) ==> r == os[j]
            },
{
    lemma_output_index(os, output);
    assert forall|j: int| 0 <= j < os.len() implies {
        let r = #[trigger] spec_rename(os, output, name)[j];
        &&& is_first_entry(os, output, j) ==> r == (OutputView { name, ..os[j] })
        &&& !is_first_entry(os, output, j) ==> r == os[j]
    } by {
        lemma_is_first_entry(os, output, j);
    }
}

/// Removing an output drops exactly its first entry, keeping the others in
/// order; nothing changes when the output has no entry.
pub proof fn lemma_remove_drops_its_entry<S>(os: Seq<OutputView<S>>, output: u32)
    ensures
        (forall|j: int| 0 <= j < os.len() ==> #[trigger] os[j].output != output) ==> spec_remove(
            os,
            output,
        ) == os,
        forall|j: int|
            #[trigger] is_first_entry(os, output, j) ==> {
                &&& spec_remove(os, output).len() == os.len() - 1
                &&& spec_remove(os, output).take(j) == os.take(j)
                &&& spec_remove(os, output).skip(j) == os.skip(j + 1)
            },
{
    lemma_output_index(os, output);
    let i = output_index(os, output);
    if i < os.len() {
        assert(os[i].output == output);
    }
    assert forall|j: int| #[trigger] is_first_entry(os, output, j) implies {
        &&& spec_remove(os, output).len() == os.len() - 1
        &&& spec_remove(os, output).take(j) == os.take(j)
        &&& spec_remove(os, output).skip(j) == os.skip(j + 1)
    } by {
        lemma_is_first_entry(os, output, j);
        assert(os.remove(j).take(j) =~= os.take(j));
        assert(os.remove(j).skip(j) =~= os.skip(j + 1));
    }
}

impl<S: Copy> OutputSet<S> {
    /// No outputs.
    pub fn new() -> (r: Self)
        ensures
            r.outputs@.len() == 0,
    {
        OutputSet { outputs: Vec::new() }
    }

    /// Index of the first entry for `output`, or the number of entries.
    pub fn find(&self, output: u32) -> (i: usize)
        ensures
            i as int == output_index(outputs_view(self.outputs@), output),
    {
        let n = self.outputs.len();
        let ghost os = outputs_view(self.outputs@);
        let mut i: usize = 0;
        proof {
            assert(os.skip(0) =~= os);
        }
        while i < n
            invariant
                n == self.outputs@.len(),
                os == outputs_view(self.outputs@),
                0 <= i <= n,
                output_index(os, output) == i + output_index(os.skip(i as int), output),
            ensures
                output_index(os, output) == i,
            decreases n - i,
        {
            if self.outputs[i].output == output {
                proof {
                    assert(os.skip(i as int)[0] == os[i as int]);
                }
                break;
            }
            proof {
                assert(os.skip(i as int).drop_first() =~= os.skip(i + 1));
            }
            i = i + 1;
        }
        i
    }

    /// A new output appeared and got the overlay surface `surface`.
    pub fn add(&mut self, output: u32, surface: S, name: Option<String>)
        ensures
            outputs_view(final(self).outputs@) == outputs_view(old(self).outputs@).push(
                OutputState { output, surface, name }@,
            ),
    {
        let ghost before = outputs_view(self.outputs@);
        let entry = OutputState { output, surface, name };
        let ghost v = entry@;
        self.outputs.push(entry);
        assert(outputs_view(self.outputs@) =~= before.push(v));
    }

    /// An output went away: drop its entry and hand back its surface, which
    /// has to be destroyed.
    pub fn remove(&mut self, output: u32) -> (r: Option<S>)
        ensures
            outputs_view(final(self).outputs@) == spec_remove(outputs_view(old(self).outputs@), output),
            ({
                let os = outputs_view(old(self).outputs@);
                let i = output_index(os, output);
                r == if i < os.len() { Some(os[i].surface) } else { None }
            }),
    {
        let ghost os = outputs_view(self.outputs@);
        let i = self.find(output);
        if i < self.outputs.len() {
            let removed = self.outputs.remove(i);
            assert(outputs_view(self.outputs@) =~= os.remove(i as int));
            Some(removed.surface)
        } else {
            None
        }
    }

    /// An output reported a new name.
    pub fn rename(&mut self, output: u32, name: Option<String>)
        ensures
            outputs_view(final(self).outputs@) == spec_rename(
                outputs_view(old(self).outputs@),
                output,
                match name {
                    Some(n) => Some(n@),
                    None => None,
                },
            ),
    {
        let ghost os = outputs_view(self.outputs@);
        let ghost nv = match &name {
            Some(n) => Some(n@),
            None => None,
        };
        let i = self.find(output);
        if i < self.outputs.len() {
            let mut entry = self.outputs.remove(i);
            entry.name = name;
            self.outputs.insert(i, entry);
            assert(outputs_view(self.outputs@) =~= os.update(i as int, OutputView { name: nv, ..os[i as int] }));
        }
    }

    /// The overlay surfaces of all outputs, in order.
    pub fn surfaces(&self) -> (r: Vec<S>)
        ensures
            r@ == outputs_view(self.outputs@).map_values(|o: OutputView<S>| o.surface),
    {
        let n = self.outputs.len();
        let mut r: Vec<S> = Vec::new();
        let mut i: usize = 0;
        while i < n
            invariant
                n == self.outputs@.len(),
                0 <= i <= n,
                r@ == outputs_view(self.outputs@).take(i as int).map_values(|o: OutputView<S>| o.surface),
            decreases n - i,
        {
            r.push(self.outputs[i].surface);
            proof {
                assert(outputs_view(self.outputs@).take(i + 1).map_values(|o: OutputView<S>| o.surface)
                    =~= outputs_view(self.outputs@).take(i as int).map_values(|o: OutputView<S>| o.surface).push(
                    self.outputs@[i as int].surface));
            }
            i = i + 1;
        }
        proof {
            assert(outputs_view(self.outputs@).take(n as int) =~= outputs_view(self.outputs@));
        }
        r
    }

    /// Give the output at `index` a new overlay surface; returns the old one,
    /// which has to be destroyed.
    pub fn replace_surface(&mut self, index: usize, surface: S) -> (r: Option<S>)
        ensures
            index < old(self).outputs@.len() ==> {
                &&& r == Some(old(self).outputs@[index as int].surface)
                &&& outputs_view(final(self).outputs@) == outputs_view(old(self).outputs@).update(
                    index as int,
                    OutputView { surface, ..outputs_view(old(self).outputs@)[index as int] },
                )
            },
            index >= old(self).outputs@.len() ==> r is None && final(self).outputs@ == old(self).outputs@,
    {
        if index < self.outputs.len() {
            let ghost os = outputs_view(self.outputs@);
            let mut entry = self.outputs.remove(index);
            let old_surface = entry.surface;
            entry.surface = surface;
            self.outputs.insert(index, entry);
            assert(outputs_view(self.outputs@) =~= os.update(index as int, OutputView { surface, ..os[index as int] }));
            Some(old_surface)
        } else {
            None
        }
    }
}

} // verus!
