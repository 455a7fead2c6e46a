use hex_patch::events::{Event, EventHandlerSet};
use hex_patch::host::HostState;
use hex_patch::keys::{KeyCode, KeyEvent};
use hex_patch::log::LogLevel;
use hex_patch::plugin::Plugin;
use hex_patch::settings::SettingsValue;
use hex_patch::style::{ColorVal, NamedColor, StyleVal};
use hex_patch::PluginError;

fn mock_state() -> HostState {
    HostState::new(vec![0; 0x100])
}

#[test]
fn test_init_plugin() {
    let test_value = 42;
    let source = format!(
        "
        test_value = 0
        function init(context)
            test_value = {test_value}
        end
    "
    );
    let mut state = mock_state();
    let plugin = Plugin::new_from_source(&source, &mut state).unwrap();
    assert_eq!(plugin.read_global_int("test_value").unwrap(), test_value);
}

#[test]
fn test_discover_event_handlers() {
    let source = "
        function on_open(context) end
        function on_edit(new_bytes, context) end
        function on_save(context) end
        function on_key(key_event, context) end
        function on_mouse(mouse_event, context) end
    ";
    let mut state = mock_state();
    let plugin = Plugin::new_from_source(source, &mut state).unwrap();
    let handlers = plugin.get_event_handlers();
    assert_eq!(
        handlers,
        EventHandlerSet {
            on_open: true,
            on_edit: true,
            on_save: true,
            on_key: true,
            on_mouse: true,
        }
    );
    let source = "
        function on_open(context) end
        function on_edit(new_bytes, context) end
        function on_save(context) end
    ";
    let plugin = Plugin::new_from_source(source, &mut state).unwrap();
    let handlers = plugin.get_event_handlers();
    assert_eq!(
        handlers,
        EventHandlerSet {
            on_open: true,
            on_edit: true,
            on_save: true,
            on_key: false,
            on_mouse: false,
        }
    );
}

#[test]
fn discovery_of_no_handlers_is_empty() {
    let mut state = mock_state();
    let plugin = Plugin::new_from_source("x = 1", &mut state).unwrap();
    assert_eq!(plugin.get_event_handlers(), EventHandlerSet::none());
    let plugin = Plugin::new_from_source("function on_key(k, c) end", &mut state).unwrap();
    let handlers = plugin.get_event_handlers();
    assert!(handlers.on_key);
    assert!(!handlers.on_open && !handlers.on_edit && !handlers.on_save && !handlers.on_mouse);
}

#[test]
fn test_edit_open_data() {
    let source = "
        function on_open(context)
            context.data:set(0,42)
        end
    ";
    let mut state = mock_state();
    let mut plugin = Plugin::new_from_source(source, &mut state).unwrap();
    let mut event = Event::Open;
    plugin.handle_with_error(&mut event, &mut state).unwrap();
    assert_eq!(state.data[0], 42);
}

#[test]
fn test_init_change_settings() {
    let source = "
        function init(context)
            context.settings.color_address_selected = {fg=\"#ff0000\",bg=\"Black\"}
            context.settings.color_address_default = {fg=2}

            context.settings.key_up = {code=\"Down\",modifiers=0,kind=\"Press\",state=0}

            if context.settings:get_custom(\"test\") ~= \"Hello\" then
                error(\"Custom setting not set\")
            end
            context.settings:set_custom(\"string\", \"World\")
            context.settings:set_custom(\"integer\", 42)
            context.settings:set_custom(\"float\", 3.14)
            context.settings:set_custom(\"boolean\", true)
            context.settings:set_custom(\"nil\", nil)
            context.settings:set_custom(\"style\", {fg=\"#ff0000\",bg=\"#000000\"})
            context.settings:set_custom(\"key\", {code=\"Up\"})
        end
    ";
    let mut state = mock_state();
    state
        .settings
        .set_custom("test".to_string(), SettingsValue::Str("Hello".to_string()));
    let _ = Plugin::new_from_source(source, &mut state).unwrap();
    assert_eq!(
        state.settings.get_color("color_address_selected"),
        Some(&StyleVal {
            fg: Some(ColorVal::Rgb(0xff, 0, 0)),
            bg: Some(ColorVal::Named(NamedColor::Black)),
        })
    );
    assert_eq!(
        state.settings.get_color("color_address_default"),
        Some(&StyleVal { fg: Some(ColorVal::Indexed(2)), bg: None })
    );
    assert_eq!(
        state.settings.get_key("key_up"),
        Some(&KeyEvent::plain(KeyCode::Down))
    );
    assert_eq!(
        state.settings.get_custom("string"),
        Some(&SettingsValue::Str("World".to_string()))
    );
    assert_eq!(state.settings.get_custom("integer"), Some(&SettingsValue::Int(42)));
    match state.settings.get_custom("float") {
        Some(SettingsValue::Float(spelling)) => {
            assert_eq!(spelling.parse::<f64>().unwrap(), 3.14);
        },
        other => panic!("expected a float value, got {:?}", other),
    }
    assert_eq!(state.settings.get_custom("boolean"), Some(&SettingsValue::Bool(true)));
    assert!(state.settings.get_custom("nil").is_none());
    assert_eq!(
        state.settings.get_custom("style"),
        Some(&SettingsValue::Style(StyleVal {
            fg: Some(ColorVal::Rgb(0xff, 0, 0)),
            bg: Some(ColorVal::Rgb(0, 0, 0)),
        }))
    );
    assert_eq!(
        state.settings.get_custom("key"),
        Some(&SettingsValue::Key(KeyEvent::plain(KeyCode::Up)))
    );
}

#[test]
fn test_on_key_with_init() {
    let source = "
        command = nil
        function init(context)
            command = context.settings.key_confirm
        end
        function on_key(key_event, context)
            if key_event.code == command.code then
                context.data:set(context.offset, 42)
            end
        end
    ";
    let mut state = mock_state();
    let mut plugin = Plugin::new_from_source(source, &mut state).unwrap();

    let mut event = Event::Key { event: KeyEvent::plain(KeyCode::Down) };
    plugin.handle_with_error(&mut event, &mut state).unwrap();
    assert_eq!(state.data[0], 0);
    let confirm = state.settings.get_key("key_confirm").unwrap().clone();
    let mut event = Event::Key { event: confirm };
    plugin.handle_with_error(&mut event, &mut state).unwrap();
    assert_eq!(state.data[0], 42);
}

#[test]
fn test_log_from_lua() {
    let source = "
        function init(context)
            context.log(1, \"Hello from init\")
        end

        function on_open(context)
            context.log(2, \"Hello from on_open\")
        end
    ";
    let mut state = mock_state();
    state.logger.clear();
    let mut plugin = Plugin::new_from_source(source, &mut state).unwrap();

    {
        let messages = state.logger.entries();
        let message = &messages[0];
        assert_eq!(message.level, LogLevel::Debug);
        assert_eq!(message.message, "Hello from init");
        assert_eq!(state.logger.get_notification_level(), LogLevel::Debug);
    }

    state.logger.clear();

    let mut event = Event::Open;
    plugin.handle_with_error(&mut event, &mut state).unwrap();

    let messages = state.logger.entries();
    let message = &messages[0];
    assert_eq!(message.level, LogLevel::Info);
    assert_eq!(message.message, "Hello from on_open");
    assert_eq!(state.logger.get_notification_level(), LogLevel::Info);
    assert!(messages.len() == 1);
}

#[test]
fn test_export_command() {
    let source = "
        function init(context)
            context.add_command(\"test\", \"Test command\")
        end
    ";
    let mut state = mock_state();
    state.logger.clear();

    assert!(
        Plugin::new_from_source(source, &mut state).is_err(),
        "Should not be able to export a command without defining it first"
    );

    let source = "
        function init(context)
            context.add_command(\"test\", \"Test command\")
            context.add_command(\"test3\", \"Test command 3\")
        end

        -- Add and remove commands
        function test(context)
            context.add_command(\"test2\", \"Test command 2\")
            context.remove_command(\"test\")
        end

        -- Intentional error
        function test2(context)
            context.add_command(\"does_not_exist\", \"This command does not exist\")
        end

        -- No duplicate command should be added
        function test3(context)
            context.add_command(\"test\", \"Test command\")
            context.add_command(\"test\", \"Test command 1\")
        end
    ";

    let mut plugin = Plugin::new_from_source(source, &mut state).unwrap();

    let commands = plugin.get_commands();
    assert_eq!(commands.len(), 2);
    assert_eq!(commands[0].command, "test");
    assert_eq!(commands[0].description, "Test command");
    assert_eq!(commands[1].command, "test3");
    assert_eq!(commands[1].description, "Test command 3");

    plugin.run_command("test", &mut state).unwrap();

    let commands = plugin.get_commands();
    assert_eq!(commands.len(), 2);
    assert_eq!(commands[0].command, "test3");
    assert_eq!(commands[0].description, "Test command 3");
    assert_eq!(commands[1].command, "test2");
    assert_eq!(commands[1].description, "Test command 2");

    assert!(
        plugin.run_command("test2", &mut state).is_err(),
        "Should not be able to add a command that is not defined"
    );

    let commands = plugin.get_commands();
    assert_eq!(commands.len(), 2, "No commands should be lost when an error occurs");
    assert_eq!(commands[0].command, "test3");
    assert_eq!(commands[0].description, "Test command 3");
    assert_eq!(commands[1].command, "test2");
    assert_eq!(commands[1].description, "Test command 2");

    plugin.run_command("test3", &mut state).unwrap();

    let commands = plugin.get_commands();
    assert_eq!(commands.len(), 3, "No duplicate commands should be added");
    assert_eq!(commands[0].command, "test3");
    assert_eq!(commands[0].description, "Test command 3");
    assert_eq!(commands[1].command, "test2");
    assert_eq!(commands[1].description, "Test command 2");
    assert_eq!(commands[2].command, "test");
    assert_eq!(
        commands[2].description,
        "Test command 1",
        "Should overwrite the description of the command"
    );
}

#[test]
fn test_header() {
    let source = "
        function on_open(context)
            context.log(1, context.header.bitness)
            context.log(1, context.header.architecture)
            context.log(1, context.header.entry_point)
        end
    ";

    let mut state = mock_state();
    let mut plugin = Plugin::new_from_source(source, &mut state).unwrap();

    let mut event = Event::Open;
    plugin.handle_with_error(&mut event, &mut state).unwrap();

    let messages = state.logger.entries();
    assert_eq!(messages.len(), 3);
    assert_eq!(messages[0].message, 64.to_string(), "Default bitness is 64");
    assert_eq!(messages[1].message, "Unknown", "Default architecture is Unknown");
    assert_eq!(messages[2].message, 0.to_string(), "Default entry point is 0");
}

#[test]
fn raising_init_fails_the_load() {
    let source = "
        function init(context)
            error(\"deliberate\")
        end
    ";
    let mut state = mock_state();
    let r = Plugin::new_from_source(source, &mut state);
    assert!(matches!(r, Err(PluginError::Load(_))));
}

#[test]
fn syntax_error_fails_the_load() {
    let mut state = mock_state();
    let r = Plugin::new_from_source("function (", &mut state);
    assert!(matches!(r, Err(PluginError::Load(_))));
}

#[test]
fn dispatch_without_handler_is_handler_missing() {
    let mut state = mock_state();
    let mut plugin = Plugin::new_from_source("function on_save(c) end", &mut state).unwrap();
    let mut open_event = Event::Open;
    let r = plugin.handle_with_error(&mut open_event, &mut state);
    assert!(matches!(r, Err(PluginError::HandlerMissing)));
    let mut save_event = Event::Save;
    plugin.handle_with_error(&mut save_event, &mut state).unwrap();
}

#[test]
fn edit_payload_reaches_the_handler() {
    let source = "
        function on_edit(new_bytes, context)
            context.data:set(1, new_bytes:get(0))
        end
    ";
    let mut state = mock_state();
    let mut plugin = Plugin::new_from_source(source, &mut state).unwrap();
    let mut event = Event::Edit { new_bytes: vec![0xab, 0x10] };
    plugin.handle_with_error(&mut event, &mut state).unwrap();
    assert_eq!(state.data[1], 0xab);
}

#[test]
fn guest_writes_into_the_edit_payload_are_kept() {
    let source = "
        function on_edit(new_bytes, context)
            if new_bytes:len() ~= 2 then
                error(\"unexpected payload length\")
            end
            new_bytes:set(0, 7)
        end
    ";
    let mut state = mock_state();
    let mut plugin = Plugin::new_from_source(source, &mut state).unwrap();
    let mut event = Event::Edit { new_bytes: vec![0xab, 0x10] };
    plugin.handle_with_error(&mut event, &mut state).unwrap();
    match event {
        Event::Edit { new_bytes } => assert_eq!(new_bytes, vec![7, 0x10]),
        other => panic!("event shape changed: {:?}", other),
    }
}

#[test]
fn run_command_of_unknown_name_fails() {
    let mut state = mock_state();
    let mut plugin = Plugin::new_from_source("x = 3", &mut state).unwrap();
    let r = plugin.run_command("nothing_here", &mut state);
    assert!(matches!(r, Err(PluginError::Runtime(_))));
}

#[test]
fn guest_error_is_logged_by_handle() {
    let source = "
        function on_open(context)
            error(\"boom\")
        end
    ";
    let mut state = mock_state();
    let mut plugin = Plugin::new_from_source(source, &mut state).unwrap();
    state.logger.clear();
    let mut event = Event::Open;
    plugin.handle(&mut event, &mut state);
    let messages = state.logger.entries();
    assert_eq!(messages.len(), 1);
    assert_eq!(messages[0].level, LogLevel::Error);
    assert!(messages[0].message.starts_with("In plugin: "));
    assert!(messages[0].message.contains("boom"));
}

#[test]
fn mouse_events_reach_the_handler() {
    let source = "
        function on_mouse(mouse_event, context)
            context.settings:set_custom(\"mk\", mouse_event.kind)
            context.settings:set_custom(\"col\", mouse_event.column)
        end
    ";
    let mut state = mock_state();
    let mut plugin = Plugin::new_from_source(source, &mut state).unwrap();
    let mut event = Event::Mouse {
        event: hex_patch::keys::MouseEvent {
            kind: hex_patch::keys::MouseKind::ScrollUp,
            column: 7,
            row: 3,
            modifiers: 0,
        },
    };
    plugin.handle_with_error(&mut event, &mut state).unwrap();
    assert_eq!(
        state.settings.get_custom("mk"),
        Some(&SettingsValue::Str("ScrollUp".to_string()))
    );
    assert_eq!(state.settings.get_custom("col"), Some(&SettingsValue::Int(7)));
}

#[test]
fn styles_read_back_inside_the_guest() {
    let source = "
        function init(context)
            context.settings.color_status = {fg=\"#010203\"}
        end
        function on_open(context)
            context.log(1, context.settings.color_status.fg)
            context.log(1, tostring(context.settings.color_missing))
        end
    ";
    let mut state = mock_state();
    let mut plugin = Plugin::new_from_source(source, &mut state).unwrap();
    let mut event = Event::Open;
    plugin.handle_with_error(&mut event, &mut state).unwrap();
    let messages = state.logger.entries();
    assert_eq!(messages[0].message, "#010203");
    assert_eq!(messages[1].message, "nil");
}
