//! Key bindings: each action's configured key, with the built-in default
//! where the configuration leaves it unset.
use vstd::prelude::*;

verus! {

/// Key bindings as configured; an unset binding falls back to its default.
#[derive(Debug, Clone, Default)]
pub struct KeyBindingsConfig {
    pub key_quit: Option<char>,
    pub key_help: Option<char>,
    pub key_theme: Option<char>,
    pub key_config: Option<char>,
    pub key_refresh: Option<char>,
    pub key_down: Option<char>,
    pub key_up: Option<char>,
    pub key_next_page: Option<char>,
    pub key_prev_page: Option<char>,
    pub key_alt_next_page: Option<char>,
    pub key_alt_prev_page: Option<char>,
    pub key_send_to_dlq: Option<char>,
    pub key_resend_from_dlq: Option<char>,
    pub key_resend_and_delete_from_dlq: Option<char>,
    pub key_delete_message: Option<char>,
    pub key_alt_delete_message: Option<char>,
    pub key_copy_message: Option<char>,
    pub key_yank_message: Option<char>,
    pub key_send_edited_message: Option<char>,
    pub key_replace_edited_message: Option<char>,
    pub key_toggle_selection: Option<char>,
    pub key_select_all_page: Option<char>,
    pub key_queue_select: Option<char>,
    pub key_namespace_select: Option<char>,
    pub key_toggle_dlq: Option<char>,
    pub key_compose_multiple: Option<char>,
    pub key_compose_single: Option<char>,
    pub key_page_size: Option<char>,
    pub key_confirm_yes: Option<char>,
    pub key_confirm_no: Option<char>,
}

impl KeyBindingsConfig {
    /// The `quit` key (default `'q'`).
    #[verifier::allow_in_spec]
    pub fn quit(&self) -> char
        returns
            match self.key_quit {
                Some(c) => c,
                None => 'q',
            },
    {
        match self.key_quit {
            Some(c) => c,
            None => 'q',
        }
    }

    /// The `help` key (default `'h'`).
    #[verifier::allow_in_spec]
    pub fn help(&self) -> char
        returns
            match self.key_help {
                Some(c) => c,
                None => 'h',
            },
    {
        match self.key_help {
            Some(c) => c,
            None => 'h',
        }
    }

    /// The `theme` key (default `'t'`).
    #[verifier::allow_in_spec]
    pub fn theme(&self) -> char
        returns
            match self.key_theme {
                Some(c) => c,
                None => 't',
            },
    {
        match self.key_theme {
            Some(c) => c,
            None => 't',
        }
    }

    /// The `config` key (default `'C'`).
    #[verifier::allow_in_spec]
    pub fn config(&self) -> char
        returns
            match self.key_config {
                Some(c) => c,
                None => 'C',
            },
    {
        match self.key_config {
            Some(c) => c,
            None => 'C',
        }
    }

    /// The `refresh` key (default `'r'`).
    #[verifier::allow_in_spec]
    pub fn refresh(&self) -> char
        returns
            match self.key_refresh {
                Some(c) => c,
                None => 'r',
            },
    {
        match self.key_refresh {
            Some(c) => c,
            None => 'r',
        }
    }

    /// The `down` key (default `'j'`).
    #[verifier::allow_in_spec]
    pub fn down(&self) -> char
        returns
            match self.key_down {
                Some(c) => c,
                None => 'j',
            },
    {
        match self.key_down {
            Some(c) => c,
            None => 'j',
        }
    }

    /// The `up` key (default `'k'`).
    #[verifier::allow_in_spec]
    pub fn up(&self) -> char
        returns
            match self.key_up {
                Some(c) => c,
                None => 'k',
            },
    {
        match self.key_up {
            Some(c) => c,
            None => 'k',
        }
    }

    /// The `next page` key (default `'n'`).
    #[verifier::allow_in_spec]
    pub fn next_page(&self) -> char
        returns
            match self.key_next_page {
                Some(c) => c,
                None => 'n',
            },
    {
        match self.key_next_page {
            Some(c) => c,
            None => 'n',
        }
    }

    /// The `prev page` key (default `'p'`).
    #[verifier::allow_in_spec]
    pub fn prev_page(&self) -> char
        returns
            match self.key_prev_page {
                Some(c) => c,
                None => 'p',
            },
    {
        match self.key_prev_page {
            Some(c) => c,
            None => 'p',
        }
    }

    /// The `alt next page` key (default `']'`).
    #[verifier::allow_in_spec]
    pub fn alt_next_page(&self) -> char
        returns
            match self.key_alt_next_page {
                Some(c) => c,
                None => ']',
            },
    {
        match self.key_alt_next_page {
            Some(c) => c,
            None => ']',
        }
    }

    /// The `alt prev page` key (default `'['`).
    #[verifier::allow_in_spec]
    pub fn alt_prev_page(&self) -> char
        returns
            match self.key_alt_prev_page {
                Some(c) => c,
                None => '[',
            },
    {
        match self.key_alt_prev_page {
            Some(c) => c,
            None => '[',
        }
    }

    /// The `send to dlq` key (default `'s'`).
    #[verifier::allow_in_spec]
    pub fn send_to_dlq(&self) -> char
        returns
            match self.key_send_to_dlq {
                Some(c) => c,
                None => 's',
            },
    {
        match self.key_send_to_dlq {
            Some(c) => c,
            None => 's',
        }
    }

    /// The `resend from dlq` key (default `'r'`).
    #[verifier::allow_in_spec]
    pub fn resend_from_dlq(&self) -> char
        returns
            match self.key_resend_from_dlq {
                Some(c) => c,
                None => 'r',
            },
    {
        match self.key_resend_from_dlq {
            Some(c) => c,
            None => 'r',
        }
    }

    /// The `resend and delete from dlq` key (default `'R'`).
    #[verifier::allow_in_spec]
    pub fn resend_and_delete_from_dlq(&self) -> char
        returns
            match self.key_resend_and_delete_from_dlq {
                Some(c) => c,
                None => 'R',
            },
    {
        match self.key_resend_and_delete_from_dlq {
            Some(c) => c,
            None => 'R',
        }
    }

    /// The `delete message` key (default `'X'`).
    #[verifier::allow_in_spec]
    pub fn delete_message(&self) -> char
        returns
            match self.key_delete_message {
                Some(c) => c,
                None => 'X',
            },
    {
        match self.key_delete_message {
            Some(c) => c,
            None => 'X',
        }
    }

    /// The `alt delete message` key (default `'x'`).
    #[verifier::allow_in_spec]
    pub fn alt_delete_message(&self) -> char
        returns
            match self.key_alt_delete_message {
                Some(c) => c,
                None => 'x',
            },
    {
        match self.key_alt_delete_message {
            Some(c) => c,
            None => 'x',
        }
    }

    /// The `copy message` key (default `'c'`).
    #[verifier::allow_in_spec]
    pub fn copy_message(&self) -> char
        returns
            match self.key_copy_message {
                Some(c) => c,
                None => 'c',
            },
    {
        match self.key_copy_message {
            Some(c) => c,
            None => 'c',
        }
    }

    /// The `yank message` key (default `'y'`).
    #[verifier::allow_in_spec]
    pub fn yank_message(&self) -> char
        returns
            match self.key_yank_message {
                Some(c) => c,
                None => 'y',
            },
    {
        match self.key_yank_message {
            Some(c) => c,
            None => 'y',
        }
    }

    /// The `send edited message` key (default `'s'`).
    #[verifier::allow_in_spec]
    pub fn send_edited_message(&self) -> char
        returns
            match self.key_send_edited_message {
                Some(c) => c,
                None => 's',
            },
    {
        match self.key_send_edited_message {
            Some(c) => c,
            None => 's',
        }
    }

    /// The `replace edited message` key (default `'r'`).
    #[verifier::allow_in_spec]
    pub fn replace_edited_message(&self) -> char
        returns
            match self.key_replace_edited_message {
                Some(c) => c,
                None => 'r',
            },
    {
        match self.key_replace_edited_message {
            Some(c) => c,
            None => 'r',
        }
    }

    /// The `toggle selection` key (default `' '`).
    #[verifier::allow_in_spec]
    pub fn toggle_selection(&self) -> char
        returns
            match self.key_toggle_selection {
                Some(c) => c,
                None => ' ',
            },
    {
        match self.key_toggle_selection {
            Some(c) => c,
            None => ' ',
        }
    }

    /// The `select all page` key (default `'a'`).
    #[verifier::allow_in_spec]
    pub fn select_all_page(&self) -> char
        returns
            match self.key_select_all_page {
                Some(c) => c,
                None => 'a',
            },
    {
        match self.key_select_all_page {
            Some(c) => c,
            None => 'a',
        }
    }

    /// The `queue select` key (default `'o'`).
    #[verifier::allow_in_spec]
    pub fn queue_select(&self) -> char
        returns
            match self.key_queue_select {
                Some(c) => c,
                None => 'o',
            },
    {
        match self.key_queue_select {
            Some(c) => c,
            None => 'o',
        }
    }

    /// The `namespace select` key (default `'o'`).
    #[verifier::allow_in_spec]
    pub fn namespace_select(&self) -> char
        returns
            match self.key_namespace_select {
                Some(c) => c,
                None => 'o',
            },
    {
        match self.key_namespace_select {
            Some(c) => c,
            None => 'o',
        }
    }

    /// The `toggle dlq` key (default `'d'`).
    #[verifier::allow_in_spec]
    pub fn toggle_dlq(&self) -> char
        returns
            match self.key_toggle_dlq {
                Some(c) => c,
                None => 'd',
            },
    {
        match self.key_toggle_dlq {
            Some(c) => c,
            None => 'd',
        }
    }

    /// The `compose multiple` key (default `'m'`).
    #[verifier::allow_in_spec]
    pub fn compose_multiple(&self) -> char
        returns
            match self.key_compose_multiple {
                Some(c) => c,
                None => 'm',
            },
    {
        match self.key_compose_multiple {
            Some(c) => c,
            None => 'm',
        }
    }

    /// The `compose single` key (default `'M'`).
    #[verifier::allow_in_spec]
    pub fn compose_single(&self) -> char
        returns
            match self.key_compose_single {
                Some(c) => c,
                None => 'M',
            },
    {
        match self.key_compose_single {
            Some(c) => c,
            None => 'M',
        }
    }

    /// The `page size` key (default `'z'`).
    #[verifier::allow_in_spec]
    pub fn page_size(&self) -> char
        returns
            match self.key_page_size {
                Some(c) => c,
                None => 'z',
            },
    {
        match self.key_page_size {
            Some(c) => c,
            None => 'z',
        }
    }

    /// The `confirm yes` key (default `'y'`).
    #[verifier::allow_in_spec]
    pub fn confirm_yes(&self) -> char
        returns
            match self.key_confirm_yes {
                Some(c) => c,
                None => 'y',
            },
    {
        match self.key_confirm_yes {
            Some(c) => c,
            None => 'y',
        }
    }

    /// The `confirm no` key (default `'n'`).
    #[verifier::allow_in_spec]
    pub fn confirm_no(&self) -> char
        returns
            match self.key_confirm_no {
                Some(c) => c,
                None => 'n',
            },
    {
        match self.key_confirm_no {
            Some(c) => c,
            None => 'n',
        }
    }

}

} // verus!
