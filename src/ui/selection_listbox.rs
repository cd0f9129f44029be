//! A list of mod lists that the operator picks from.
use vstd::prelude::*;
use crate::modlist::ServerModList;
use crate::text::views;

verus! {

/// A titled list of mod lists, each picked or not.
#[derive(Debug)]
pub struct SelectionListbox {
    pub id: usize,
    pub title: String,
    pub elements: Vec<ServerModList>,
}

/// A pick or an unpick.
#[derive(Clone, Copy, Debug, PartialEq, Eq, Structural)]
pub enum Message {
    ToggleSelection(usize, bool),
}

/// The mods of the picked lists among `elements`, list after list.
pub open spec fn selected_mods_of(elements: Seq<ServerModList>) -> Seq<Seq<char>>
    decreases elements.len(),
{
    if elements.len() == 0 {
        seq![]
    } else {
        let prev = selected_mods_of(elements.drop_last());
        if elements.last().selected {
            prev + views(elements.last().mods@)
        } else {
            prev
        }
    }
}

impl SelectionListbox {
    pub fn new(id: usize, title: String, elements: Vec<ServerModList>) -> (r: SelectionListbox)
        ensures
            r.id == id,
            r.title == title,
            r.elements == elements,
    {
        SelectionListbox { id, title, elements }
    }

    /// Picks or unpicks the list at the index that `message` names; an index past
    /// the end changes nothing.
    pub fn update(&mut self, message: Message)
        ensures
            final(self).id == old(self).id,
            final(self).elements.len() == old(self).elements.len(),
            match message {
                Message::ToggleSelection(i, checked) => forall|j: int|
                    0 <= j < old(self).elements.len() ==> {
                        let (a, b) = (old(self).elements[j], #[trigger] final(self).elements[j]);
                        &&& b.name == a.name
                        &&& b.path == a.path
                        &&& b.mods == a.mods
                        &&& b.selected == if j == i { checked } else { a.selected }
                    },
            },
    {
        match message {
            Message::ToggleSelection(i, checked) => {
                if i < self.elements.len() {
                    let mut element = self.elements.remove(i);
                    element.selected = checked;
                    self.elements.insert(i, element);
                }
            },
        }
    }

    /// The mods of the picked lists, list after list, each in its list's order.
    pub fn selected_mods(&self) -> (r: Vec<String>)
        ensures
            views(r@) == selected_mods_of(self.elements@),
    {
        let mut r: Vec<String> = Vec::new();
        let mut k: usize = 0;
        while k < self.elements.len()
            invariant
                k <= self.elements.len(),
                views(r@) == selected_mods_of(self.elements@.take(k as int)),
            decreases self.elements.len() - k,
        {
            let ghost seen = self.elements@.take(k + 1);
            assert(seen.drop_last() =~= self.elements@.take(k as int));
            let element = &self.elements[k];
            if element.selected {
                let mut j: usize = 0;
                while j < element.mods.len()
                    invariant
                        j <= element.mods.len(),
                        views(r@) == selected_mods_of(self.elements@.take(k as int)) + views(
                            element.mods@,
                        ).take(j as int),
                    decreases element.mods.len() - j,
                {
                    let ghost before = r@;
                    r.push(element.mods[j].clone());
                    assert(views(r@) =~= views(before).push(element.mods@[j as int]@));
                    assert(views(element.mods@).take(j + 1) =~= views(element.mods@).take(
                        j as int,
                    ).push(element.mods@[j as int]@));
                    j = j + 1;
                }
                assert(views(element.mods@).take(element.mods.len() as int) =~= views(
                    element.mods@,
                ));
            }
            k = k + 1;
        }
        assert(self.elements@.take(self.elements.len() as int) =~= self.elements@);
        r
    }
}

} // verus!
