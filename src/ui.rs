use vstd::prelude::*;

verus! {

/// The overlay above the canvas: its child elements as HTML, first on top.
#[derive(Debug)]
pub struct Ui {
    children: Vec<String>,
}

impl Ui {
    pub closed spec fn view(self) -> Seq<Seq<char>> {
        self.children@.map_values(|c: String| c@)
    }

    pub fn new() -> (r: Ui)
        ensures
            r.view() == Seq::<Seq<char>>::empty(),
    {
        let r = Ui { children: Vec::new() };
        assert(r.view() =~= Seq::<Seq<char>>::empty());
        r
    }

    pub fn len(&self) -> (r: usize)
        ensures
            r == self.view().len(),
    {
        self.children.len()
    }

    /// The HTML of the child at `index`.
    pub fn child(&self, index: usize) -> (r: String)
        requires
            index < self.view().len(),
        ensures
            r@ == self.view()[index as int],
    {
        let c: &str = self.children[index].as_str();
        String::from_str(c)
    }
}

/// Inserts `html` as the overlay's first child.
pub fn draw_ui(ui: &mut Ui, html: &str)
    ensures
        final(ui).view() == seq![html@] + old(ui).view(),
{
    ui.children.insert(0, String::from_str(html));
    assert(final(ui).view() =~= seq![html@] + old(ui).view());
}

/// Removes the overlay's first child, if any; the result says whether one
/// was removed, in which case the canvas takes the focus back.
pub fn hide_ui(ui: &mut Ui) -> (removed: bool)
    ensures
        removed == (old(ui).view().len() > 0),
        removed ==> final(ui).view() == old(ui).view().drop_first(),
        !removed ==> final(ui).view() == old(ui).view(),
{
    if ui.children.len() > 0 {
        let _child = ui.children.remove(0);
        assert(final(ui).view() =~= old(ui).view().drop_first());
        true
    } else {
        false
    }
}

} // verus!
