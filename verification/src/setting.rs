use crate::keyboard::binding::{binding_name, binding_name_of};
use crate::utils::color::{color_of_text, is_color_text, Color};
use vstd::prelude::*;

verus! {

/// What a key binding does.
pub enum Key {
    /// Starts a program: the first word is the program, the rest are its
    /// arguments.
    Spawn { command: Vec<String> },
    /// Asks the focused client to go away.
    Quit,
}

/// How windows are laid out, with the parameters of the method.
pub enum LayoutManagerSettings {
    Stack { border: u32, focus_border_color: String, normal_border_color: String },
}

/// How the bar at the top of the screen looks.
pub struct BarSettings {
    pub height: u32,
    pub font_family: String,
    pub font_color: String,
    pub background_color: String,
    pub active_font_color: String,
    pub active_background_color: String,
    pub tag_cell_width: u32,
}

/// One entry of the key table.
pub struct KeyBinding {
    pub name: String,
    pub action: Key,
}

/// The key table: at most one action for each binding name. It is a list
/// that is searched from its start, so that what a lookup returns can be
/// proved; the tables it holds have some tens of bindings.
pub struct KeyTable {
    bindings: Vec<KeyBinding>,
}

/// The colour text that a configuration got wrong.
#[derive(Clone, Copy, Debug, PartialEq, Eq, Structural)]
pub enum SettingsError {
    FocusBorderColor,
    NormalBorderColor,
    BarFontColor,
    BarBackgroundColor,
    BarActiveFontColor,
    BarActiveBackgroundColor,
}

/// Everything that the configuration gives. It is made once and never
/// changed.
pub struct Settings {
    keys: KeyTable,
    background: String,
    layout_manager: LayoutManagerSettings,
    bar: BarSettings,
}

impl LayoutManagerSettings {
    /// The width of a window's border.
    pub open spec fn border_width(&self) -> u32 {
        match self {
            LayoutManagerSettings::Stack { border, .. } => *border,
        }
    }

    /// The text of the focused window's border colour.
    pub open spec fn focus_text(&self) -> Seq<char> {
        match self {
            LayoutManagerSettings::Stack { focus_border_color, .. } => focus_border_color@,
        }
    }

    /// The text of the other windows' border colour.
    pub open spec fn normal_text(&self) -> Seq<char> {
        match self {
            LayoutManagerSettings::Stack { normal_border_color, .. } => normal_border_color@,
        }
    }

    /// Both colours are well-formed.
    pub open spec fn wf(&self) -> bool {
        is_color_text(self.focus_text()) && is_color_text(self.normal_text())
    }

    /// The border colour of a window.
    pub open spec fn border_color(&self, focused: bool) -> Color {
        if focused {
            color_of_text(self.focus_text())
        } else {
            color_of_text(self.normal_text())
        }
    }

    pub fn border(&self) -> (b: u32)
        ensures
            b == self.border_width(),
    {
        match self {
            LayoutManagerSettings::Stack { border, .. } => *border,
        }
    }

    pub fn focus_border_color(&self) -> (text: &str)
        ensures
            text@ == self.focus_text(),
    {
        match self {
            LayoutManagerSettings::Stack { focus_border_color, .. } => focus_border_color.as_str(),
        }
    }

    pub fn normal_border_color(&self) -> (text: &str)
        ensures
            text@ == self.normal_text(),
    {
        match self {
            LayoutManagerSettings::Stack { normal_border_color, .. } => normal_border_color.as_str(),
        }
    }
}

impl BarSettings {
    /// All four colours are well-formed.
    pub open spec fn wf(&self) -> bool {
        &&& is_color_text(self.font_color@)
        &&& is_color_text(self.background_color@)
        &&& is_color_text(self.active_font_color@)
        &&& is_color_text(self.active_background_color@)
    }
}

impl KeyTable {
    /// No name occurs twice.
    pub closed spec fn wf(&self) -> bool {
        forall|i: int, j: int|
            0 <= i < j < self.bindings@.len() ==> (#[trigger] self.bindings@[i]).name@ != (
            #[trigger] self.bindings@[j]).name@
    }

    spec fn holds(&self, name: Seq<char>) -> bool {
        exists|i: int| 0 <= i < self.bindings@.len() && (#[trigger] self.bindings@[i]).name@ == name
    }

    spec fn position(&self, name: Seq<char>) -> int {
        choose|i: int| 0 <= i < self.bindings@.len() && (#[trigger] self.bindings@[i]).name@ == name
    }

    /// The table as a map from binding names to actions.
    pub closed spec fn view(&self) -> Map<Seq<char>, Key> {
        Map::new(
            |name: Seq<char>| self.holds(name),
            |name: Seq<char>| self.bindings@[self.position(name)].action,
        )
    }

    /// The number of bindings.
    pub closed spec fn count(&self) -> nat {
        self.bindings@.len()
    }

    /// The empty table.
    pub fn new() -> (table: KeyTable)
        ensures
            table.wf(),
            table@ == Map::<Seq<char>, Key>::empty(),
            table.count() == 0,
    {
        let table = KeyTable { bindings: Vec::new() };
        assert(table@ =~= Map::<Seq<char>, Key>::empty());
        table
    }

    fn find(&self, name: &String) -> (at: Option<usize>)
        requires
            self.wf(),
        ensures
            match at {
                Some(i) => i < self.bindings@.len() && self.bindings@[i as int].name@ == name@
                    && self.position(name@) == i,
                None => !self.holds(name@),
            },
    {
        let n = self.bindings.len();
        let mut i: usize = 0;
        while i < n
            invariant
                self.wf(),
                i <= n,
                n == self.bindings@.len(),
                forall|j: int| 0 <= j < i ==> (#[trigger] self.bindings@[j]).name@ != name@,
            decreases n - i,
        {
            if self.bindings[i].name == *name {
                proof {
                    let k = self.position(name@);
                    assert(self.bindings@[i as int].name@ == name@);
                    assert(self.bindings@[k].name@ == name@);
                }
                return Some(i);
            }
            i += 1;
        }
        None
    }

    /// The action bound to `name`, if there is one.
    pub fn get(&self, name: &String) -> (action: Option<&Key>)
        requires
            self.wf(),
        ensures
            match action {
                Some(a) => self@.contains_key(name@) && self@[name@] == *a,
                None => !self@.contains_key(name@),
            },
    {
        match self.find(name) {
            Some(i) => Some(&self.bindings[i].action),
            None => None,
        }
    }

    /// Binds `name` to `action`. A binding that `name` had before is
    /// replaced.
    pub fn insert(&mut self, name: String, action: Key)
        requires
            old(self).wf(),
        ensures
            final(self).wf(),
            final(self)@ == old(self)@.insert(name@, action),
            final(self).count() == if old(self)@.contains_key(name@) {
                old(self).count()
            } else {
                old(self).count() + 1
            },
    {
        match self.find(&name) {
            Some(i) => {
                self.bindings[i].action = action;
                assert forall|n: Seq<char>| self.holds(n) == old(self).holds(n) by {
                    if old(self).holds(n) {
                        let k = old(self).position(n);
                        assert(self.bindings@[k].name@ == n);
                    }
                    if self.holds(n) {
                        let k = self.position(n);
                        assert(old(self).bindings@[k].name@ == n);
                    }
                }
                assert forall|n: Seq<char>| self.holds(n) implies #[trigger] self@[n] == old(
                    self,
                )@.insert(name@, action)[n] by {
                    let k = self.position(n);
                    assert(old(self).bindings@[k].name@ == n);
                }
                assert(self@ =~= old(self)@.insert(name@, action));
            },
            None => {
                let ghost end = self.bindings@.len() as int;
                self.bindings.push(KeyBinding { name, action });
                assert(self.bindings@[end].name@ == name@);
                assert forall|n: Seq<char>| self.holds(n) == (old(self).holds(n) || n == name@) by {
                    if old(self).holds(n) {
                        let k = old(self).position(n);
                        assert(self.bindings@[k].name@ == n);
                    }
                    if self.holds(n) && n != name@ {
                        let k = self.position(n);
                        assert(old(self).bindings@[k].name@ == n);
                    }
                }
                assert forall|n: Seq<char>| self.holds(n) implies #[trigger] self@[n] == old(
                    self,
                )@.insert(name@, action)[n] by {
                    let k = self.position(n);
                    if n != name@ {
                        assert(old(self).bindings@[k].name@ == n);
                        let k0 = old(self).position(n);
                        assert(self.bindings@[k0].name@ == n);
                    }
                }
                assert(self@ =~= old(self)@.insert(name@, action));
            },
        }
    }

    /// The bindings: each name of the table once, with the action that
    /// the table gives it.
    pub fn bindings(&self) -> (bindings: &Vec<KeyBinding>)
        requires
            self.wf(),
        ensures
            bindings@.len() == self.count(),
            forall|i: int|
                0 <= i < bindings@.len() ==> self@.contains_key((#[trigger] bindings@[i]).name@)
                    && self@[bindings@[i].name@] == bindings@[i].action,
            forall|i: int, j: int|
                0 <= i < j < bindings@.len() ==> (#[trigger] bindings@[i]).name@ != (
                #[trigger] bindings@[j]).name@,
            forall|name: Seq<char>|
                self@.contains_key(name) ==> exists|i: int|
                    0 <= i < bindings@.len() && (#[trigger] bindings@[i]).name@ == name,
    {
        proof {
            assert forall|i: int| 0 <= i < self.bindings@.len() implies self@.contains_key(
                (#[trigger] self.bindings@[i]).name@,
            ) && self@[self.bindings@[i].name@] == self.bindings@[i].action by {
                let name = self.bindings@[i].name@;
                assert(self.holds(name));
                let k = self.position(name);
                assert(self.bindings@[k].name@ == name);
                assert(k == i);
            }
        }
        &self.bindings
    }

    /// How many bindings the table holds.
    pub fn len(&self) -> (n: usize)
        ensures
            n == self.count(),
    {
        self.bindings.len()
    }
    /// The action for the press of `key` with the modifiers `mask`: the
    /// one bound to the binding name of the press, none where the table
    /// has no such name.
    pub fn resolve(&self, key: &str, mask: u8) -> (action: Option<&Key>)
        requires
            self.wf(),
        ensures
            match action {
                Some(a) => self@.contains_key(binding_name_of(key@, mask)) && self@[binding_name_of(
                    key@,
                    mask,
                )] == *a,
                None => !self@.contains_key(binding_name_of(key@, mask)),
            },
    {
        let name = binding_name(key, mask);
        self.get(&name)
    }
}

/// The first colour text of a configuration that is malformed, in the
/// order of `SettingsError`'s variants.
pub open spec fn first_malformed(layout_manager: LayoutManagerSettings, bar: BarSettings) -> Option<
    SettingsError,
> {
    if !is_color_text(layout_manager.focus_text()) {
        Some(SettingsError::FocusBorderColor)
    } else if !is_color_text(layout_manager.normal_text()) {
        Some(SettingsError::NormalBorderColor)
    } else if !is_color_text(bar.font_color@) {
        Some(SettingsError::BarFontColor)
    } else if !is_color_text(bar.background_color@) {
        Some(SettingsError::BarBackgroundColor)
    } else if !is_color_text(bar.active_font_color@) {
        Some(SettingsError::BarActiveFontColor)
    } else if !is_color_text(bar.active_background_color@) {
        Some(SettingsError::BarActiveBackgroundColor)
    } else {
        None
    }
}

impl Settings {
    /// The key table.
    pub closed spec fn keys(&self) -> KeyTable {
        self.keys
    }

    /// The path of the background image.
    pub closed spec fn background(&self) -> Seq<char> {
        self.background@
    }

    /// The layout parameters.
    pub closed spec fn layout_manager(&self) -> LayoutManagerSettings {
        self.layout_manager
    }

    /// The bar's parameters.
    pub closed spec fn bar(&self) -> BarSettings {
        self.bar
    }

    /// The key table has no name twice and every colour text is
    /// well-formed.
    pub open spec fn wf(&self) -> bool {
        &&& self.keys().wf()
        &&& self.layout_manager().wf()
        &&& self.bar().wf()
    }

    /// Puts a configuration together. It is refused if one of its colour
    /// texts is malformed; the error names the first such text.
    pub fn new(
        keys: KeyTable,
        background: String,
        layout_manager: LayoutManagerSettings,
        bar: BarSettings,
    ) -> (made: Result<Settings, SettingsError>)
        requires
            keys.wf(),
        ensures
            match made {
                Ok(settings) => {
                    &&& first_malformed(layout_manager, bar) is None
                    &&& settings.wf()
                    &&& settings.keys() == keys
                    &&& settings.background() == background@
                    &&& settings.layout_manager() == layout_manager
                    &&& settings.bar() == bar
                },
                Err(e) => first_malformed(layout_manager, bar) == Some(e),
            },
    {
        if Color::parse(layout_manager.focus_border_color()).is_none() {
            return Err(SettingsError::FocusBorderColor);
        }
        if Color::parse(layout_manager.normal_border_color()).is_none() {
            return Err(SettingsError::NormalBorderColor);
        }
        if Color::parse(bar.font_color.as_str()).is_none() {
            return Err(SettingsError::BarFontColor);
        }
        if Color::parse(bar.background_color.as_str()).is_none() {
            return Err(SettingsError::BarBackgroundColor);
        }
        if Color::parse(bar.active_font_color.as_str()).is_none() {
            return Err(SettingsError::BarActiveFontColor);
        }
        if Color::parse(bar.active_background_color.as_str()).is_none() {
            return Err(SettingsError::BarActiveBackgroundColor);
        }
        Ok(Settings { keys, background, layout_manager, bar })
    }

    pub fn get_background(&self) -> (background: &str)
        ensures
            background@ == self.background(),
    {
        self.background.as_str()
    }

    pub fn get_keys(&self) -> (keys: &KeyTable)
        ensures
            *keys == self.keys(),
    {
        &self.keys
    }

    pub fn get_layout_manager_settings(&self) -> (layout_manager: &LayoutManagerSettings)
        ensures
            *layout_manager == self.layout_manager(),
    {
        &self.layout_manager
    }

    pub fn get_bar(&self) -> (bar: &BarSettings)
        ensures
            *bar == self.bar(),
    {
        &self.bar
    }
}

} // verus!
