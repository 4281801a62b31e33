//! Popups shown over the user interface: what they say, their options and how they move.

use vstd::prelude::*;

verus! {

/// A popup which shows some text to the user, with only the Ok / Close option
#[derive(Clone, PartialEq, Eq, Debug)]
pub struct InfoPopup {
    pub text: String,
    /// Lines scrolled down
    pub scroll: u16,
}

impl InfoPopup {
    /// An info popup showing `text`, not scrolled.
    pub fn new(text: String) -> (p: InfoPopup)
        ensures
            p.text == text,
            p.scroll == 0,
    {
        InfoPopup { text, scroll: 0 }
    }

    /// Returns the title of the popup to show
    pub fn title(&self) -> (t: String)
        ensures
            t@ == "Alert (press enter to close)"@,
    {
        String::from_str("Alert (press enter to close)")
    }

    /// Returns the options the user can submit to the popup
    pub fn options(&self) -> (o: Vec<String>)
        ensures
            o@.len() == 1,
            o@[0]@ == "Ok"@,
    {
        let mut o = Vec::new();
        o.push(String::from_str("Ok"));
        o
    }

    /// Returns which option is selected currently
    pub fn selected_option(&self) -> (i: u8)
        ensures
            i == 0,
    {
        0
    }

    /// Selects the next option: there is only one
    pub fn select_next_option(&mut self)
        ensures
            *final(self) == *old(self),
    {
    }

    /// Selects the previous option: there is only one
    pub fn select_previous_option(&mut self)
        ensures
            *final(self) == *old(self),
    {
    }

    /// Submits the popup: nothing happens but closing it
    pub fn submit(&mut self)
        ensures
            *final(self) == *old(self),
    {
    }

    /// Moves the text's scroll 1 line up, stopping at the top
    pub fn scroll_up(&mut self)
        ensures
            final(self).text == old(self).text,
            final(self).scroll == if old(self).scroll == 0 {
                0
            } else {
                (old(self).scroll - 1) as u16
            },
    {
        self.scroll = self.scroll.saturating_sub(1);
    }

    /// Moves the text's scroll 1 line down, stopping at the largest scroll
    pub fn scroll_down(&mut self)
        ensures
            final(self).text == old(self).text,
            final(self).scroll == if old(self).scroll == u16::MAX {
                u16::MAX
            } else {
                (old(self).scroll + 1) as u16
            },
    {
        self.scroll = self.scroll.saturating_add(1);
    }
}

/// A popup which asks the user if they want to restart the robot
#[derive(Clone, Copy, PartialEq, Eq, Structural, Debug)]
pub struct RestartRobotPopup {
    pub selected_yes: bool,
}

impl RestartRobotPopup {
    /// Returns the title of the popup to show
    pub fn title(&self) -> (t: String)
        ensures
            t@ == "Restart Robot?"@,
    {
        String::from_str("Restart Robot?")
    }

    /// Returns the main text of the popup to show
    pub fn text(&self) -> (t: String)
        ensures
            t@ == "Are you sure you want to restart the robot?"@,
    {
        String::from_str("Are you sure you want to restart the robot?")
    }

    /// Returns the options the user can submit to the popup: Yes, then No
    pub fn options(&self) -> (o: Vec<String>)
        ensures
            o@.len() == 2,
            o@[0]@ == "Yes"@,
            o@[1]@ == "No"@,
    {
        let mut o = Vec::new();
        o.push(String::from_str("Yes"));
        o.push(String::from_str("No"));
        o
    }

    /// Returns which option is selected currently: 0 for Yes, 1 for No
    pub fn selected_option(&self) -> (i: u8)
        ensures
            i == if self.selected_yes {
                0u8
            } else {
                1u8
            },
    {
        if self.selected_yes {
            0
        } else {
            1
        }
    }

    /// Selects the next option, wrapping around
    pub fn select_next_option(&mut self)
        ensures
            final(self).selected_yes == !old(self).selected_yes,
    {
        self.selected_yes = !self.selected_yes;
    }

    /// Selects the previous option, wrapping around
    pub fn select_previous_option(&mut self)
        ensures
            final(self).selected_yes == !old(self).selected_yes,
    {
        self.selected_yes = !self.selected_yes;
    }

    /// Submits the selected option: returns whether the robot is to be restarted
    pub fn submit(&mut self) -> (restart: bool)
        ensures
            *final(self) == *old(self),
            restart == old(self).selected_yes,
    {
        self.selected_yes
    }

    /// There is no scrolling, the text is short
    pub fn scroll_up(&mut self)
        ensures
            *final(self) == *old(self),
    {
    }

    /// There is no scrolling, the text is short
    pub fn scroll_down(&mut self)
        ensures
            *final(self) == *old(self),
    {
    }
}

} // verus!
