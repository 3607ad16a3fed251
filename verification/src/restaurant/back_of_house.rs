use vstd::prelude::*;
use vstd::string::*;

verus! {

/// A breakfast: the guest picks the toast, the kitchen picks the fruit.
pub struct Breakfast {
    pub toast: String,
    seasonal_fruit: String,
}

/// What comes before the meal.
pub enum Appetizer {
    Soup,
    Salad,
}

impl Breakfast {
    /// The toast of the breakfast.
    pub closed spec fn bread(&self) -> Seq<char> {
        self.toast@
    }

    /// The fruit that comes with the breakfast.
    pub closed spec fn fruit(&self) -> Seq<char> {
        self.seasonal_fruit@
    }

    /// A summer breakfast with the toast asked for: it comes with peaches.
    pub fn summer(toast: &str) -> (meal: Breakfast)
        ensures
            meal.bread() == toast@,
            meal.fruit() == "peaches"@,
    {
        Breakfast { toast: toast.to_owned(), seasonal_fruit: "peaches".to_owned() }
    }

    /// A breakfast with the toast asked for: it comes with apples.
    pub fn new(toast: &str) -> (meal: Breakfast)
        ensures
            meal.bread() == toast@,
            meal.fruit() == "Apples"@,
    {
        Breakfast { toast: toast.to_owned(), seasonal_fruit: "Apples".to_owned() }
    }

    /// The toast of the breakfast.
    pub fn toast(&self) -> (toast: &str)
        ensures
            toast@ == self.bread(),
    {
        self.toast.as_str()
    }

    /// Changes the toast.
    pub fn set_toast(&mut self, toast: &str)
        ensures
            final(self).bread() == toast@,
            final(self).fruit() == old(self).fruit(),
    {
        self.toast = toast.to_owned();
    }

    /// The fruit that comes with the breakfast.
    pub fn seasonal_fruit(&self) -> (fruit: &str)
        ensures
            fruit@ == self.fruit(),
    {
        self.seasonal_fruit.as_str()
    }
}

} // verus!
