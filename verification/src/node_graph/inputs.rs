use vstd::prelude::*;

use super::ui_data::UIData;

verus! {

/// An integer input with the range its slider offers.
#[derive(Debug)]
pub struct Integer {
    value: i32,
    ui_data: UIData,
    pub range: core::ops::RangeInclusive<i32>,
}

impl Integer {
    pub closed spec fn spec_value(&self) -> i32 {
        self.value
    }

    pub closed spec fn spec_ui_data(&self) -> UIData {
        self.ui_data
    }

    pub closed spec fn spec_range(&self) -> core::ops::RangeInclusive<i32> {
        self.range
    }

    /// An input holding `value`, with the default data and the range
    /// `-10..=10`.
    pub fn new(value: i32) -> (r: Integer)
        ensures
            r.spec_value() == value,
            r.spec_ui_data().spec_tooltip() is None,
            !r.spec_ui_data().spec_hidden(),
            r.spec_range()@.start == -10,
            r.spec_range()@.end == 10,
            !r.spec_range()@.exhausted,
    {
        Integer { value, ui_data: UIData::new(), range: -10..=10 }
    }

    /// The value of the input.
    pub fn value(&self) -> (r: &i32)
        ensures
            *r == self.spec_value(),
    {
        &self.value
    }

    /// The display data of the input.
    pub fn ui_data(&self) -> (r: &UIData)
        ensures
            *r == self.spec_ui_data(),
    {
        &self.ui_data
    }

    /// The input with its display data replaced.
    pub fn with_ui_data(self, ui_data: UIData) -> (r: Integer)
        ensures
            r.spec_ui_data() == ui_data,
            r.spec_value() == self.spec_value(),
            r.spec_range() == self.spec_range(),
    {
        let mut s = self;
        s.ui_data = ui_data;
        s
    }

    /// The range the slider offers.
    pub fn range(&self) -> (r: &core::ops::RangeInclusive<i32>)
        ensures
            *r == self.spec_range(),
    {
        &self.range
    }

    /// The input with the range its slider offers replaced.
    pub fn with_range(self, range: core::ops::RangeInclusive<i32>) -> (r: Integer)
        ensures
            r.spec_range() == range,
            r.spec_value() == self.spec_value(),
            r.spec_ui_data() == self.spec_ui_data(),
    {
        let mut s = self;
        s.range = range;
        s
    }
}

impl Default for Integer {
    /// The value 0, the default data and the range `-10..=10`.
    fn default() -> (r: Self)
        ensures
            r.spec_value() == 0,
            r.spec_ui_data().spec_tooltip() is None,
            !r.spec_ui_data().spec_hidden(),
            r.spec_range()@.start == -10,
            r.spec_range()@.end == 10,
            !r.spec_range()@.exhausted,
    {
        Integer::new(0)
    }
}

/// A file path input: the text of the path as typed.
#[derive(Clone, Debug)]
pub struct Filepath {
    path_string: String,
    ui_data: UIData,
}

impl Filepath {
    pub closed spec fn spec_path(&self) -> Seq<char> {
        self.path_string@
    }

    pub closed spec fn spec_ui_data(&self) -> UIData {
        self.ui_data
    }

    /// An input holding the path whose text is `path`; a path that is not
    /// valid text (`None`) gives the empty path.
    pub fn new(path: Option<&str>) -> (r: Filepath)
        ensures
            r.spec_path() == (match path {
                Some(p) => p@,
                None => Seq::<char>::empty(),
            }),
            r.spec_ui_data().spec_tooltip() is None,
            !r.spec_ui_data().spec_hidden(),
    {
        let path_string = match path {
            Some(p) => p.to_string(),
            None => String::new(),
        };
        Filepath { path_string, ui_data: UIData::new() }
    }

    /// The text of the path.
    pub fn value(&self) -> (r: &str)
        ensures
            r@ == self.spec_path(),
    {
        self.path_string.as_str()
    }

    /// Replaces the path with the text the user typed.
    pub fn edit(&mut self, text: String)
        ensures
            final(self).spec_path() == text@,
            final(self).spec_ui_data() == old(self).spec_ui_data(),
    {
        self.path_string = text;
    }

    /// The display data of the input.
    pub fn ui_data(&self) -> (r: &UIData)
        ensures
            *r == self.spec_ui_data(),
    {
        &self.ui_data
    }

    /// The input with its display data replaced.
    pub fn with_ui_data(self, ui_data: UIData) -> (r: Filepath)
        ensures
            r.spec_ui_data() == ui_data,
            r.spec_path() == self.spec_path(),
    {
        let mut s = self;
        s.ui_data = ui_data;
        s
    }
}

impl Default for Filepath {
    /// The empty path with the default data.
    fn default() -> (r: Self)
        ensures
            r.spec_path() == Seq::<char>::empty(),
            r.spec_ui_data().spec_tooltip() is None,
            !r.spec_ui_data().spec_hidden(),
    {
        Filepath::new(None)
    }
}

/// An input that another node can be plugged into.
pub trait Connection {
    spec fn spec_connected(&self) -> bool;

    /// Marks the input as plugged in.
    fn connect(&mut self)
        ensures
            final(self).spec_connected(),
    ;

    /// Marks the input as unplugged.
    fn disconnect(&mut self)
        ensures
            !final(self).spec_connected(),
    ;

    /// Whether the input is plugged in.
    fn connected(&self) -> (r: bool)
        ensures
            r == self.spec_connected(),
    ;

    /// Plugs an unplugged input in and unplugs a plugged one.
    fn toggle_connected(&mut self)
        ensures
            final(self).spec_connected() == !old(self).spec_connected(),
    {
        if self.connected() {
            self.disconnect();
        } else {
            self.connect();
        }
    }
}

/// A material input: whether another node is plugged into it. The material
/// it holds is the renderer's and stays with it.
#[derive(Clone, Debug)]
pub struct Material {
    ui_data: UIData,
    connected: bool,
}

impl Material {
    pub closed spec fn spec_ui_data(&self) -> UIData {
        self.ui_data
    }

    /// An unplugged input with the default data.
    pub fn new() -> (r: Material)
        ensures
            !r.spec_connected(),
            r.spec_ui_data().spec_tooltip() is None,
            !r.spec_ui_data().spec_hidden(),
    {
        Material { ui_data: UIData::new(), connected: false }
    }

    /// The display data of the input.
    pub fn ui_data(&self) -> (r: &UIData)
        ensures
            *r == self.spec_ui_data(),
    {
        &self.ui_data
    }

    /// The input with its display data replaced.
    pub fn with_ui_data(self, ui_data: UIData) -> (r: Material)
        ensures
            r.spec_ui_data() == ui_data,
            r.spec_connected() == self.spec_connected(),
    {
        let mut s = self;
        s.ui_data = ui_data;
        s
    }
}

impl Connection for Material {
    closed spec fn spec_connected(&self) -> bool {
        self.connected
    }

    fn connect(&mut self) {
        self.connected = true;
    }

    fn disconnect(&mut self) {
        self.connected = false;
    }

    fn connected(&self) -> (r: bool) {
        self.connected
    }
}

} // verus!
